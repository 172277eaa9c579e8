//! The dock at the side of the window: which sections it offers and which of
//! them are open.

use std::collections::HashMap;
use vstd::prelude::*;

verus! {

broadcast use vstd::std_specs::hash::group_hash_axioms;

/// A section of the dock.
#[derive(Clone, Copy, PartialEq, Eq, Structural, Hash, Debug)]
pub enum Item {
    Library,
    Workflow,
}

/// A view inside the library section.
#[derive(Clone, Copy, PartialEq, Eq, Structural, Hash, Debug)]
pub enum SubItem {
    Explorer,
    Categories,
    Tags,
}

/// The pictures that stand for the sections and their views.
#[derive(Clone, Copy, PartialEq, Eq, Structural, Hash, Debug)]
pub enum IconName {
    Folder,
    SquareTerminal,
    Star,
    Asterisk,
    Bot,
}

/// The edge of the window that the dock is attached to.
#[derive(Clone, Copy, PartialEq, Eq, Structural, Hash, Debug)]
pub enum Side {
    Left,
    Right,
}

impl Item {
    /// The text shown for the section.
    pub open spec fn label_text(self) -> Seq<char> {
        match self {
            Item::Library => "Library"@,
            Item::Workflow => "Workflow"@,
        }
    }

    /// The picture shown for the section.
    pub open spec fn icon(self) -> IconName {
        match self {
            Item::Library => IconName::Folder,
            Item::Workflow => IconName::SquareTerminal,
        }
    }

    /// The number under which the dock files the section.
    pub open spec fn ordinal(self) -> u8 {
        match self {
            Item::Library => 0,
            Item::Workflow => 1,
        }
    }

    pub fn label(&self) -> (label: &'static str)
        ensures
            label@ == self.label_text(),
    {
        match self {
            Item::Library => "Library",
            Item::Workflow => "Workflow",
        }
    }

    pub fn icons(&self) -> (icon: IconName)
        ensures
            icon == self.icon(),
    {
        match self {
            Item::Library => IconName::Folder,
            Item::Workflow => IconName::SquareTerminal,
        }
    }

    fn number(&self) -> (number: u8)
        ensures
            number == self.ordinal(),
    {
        match self {
            Item::Library => 0,
            Item::Workflow => 1,
        }
    }
}

impl SubItem {
    /// The text shown for the view.
    pub open spec fn label_text(self) -> Seq<char> {
        match self {
            SubItem::Explorer => "Explorer"@,
            SubItem::Categories => "Categories"@,
            SubItem::Tags => "Tags"@,
        }
    }

    /// The picture shown for the view.
    pub open spec fn icon(self) -> IconName {
        match self {
            SubItem::Explorer => IconName::Star,
            SubItem::Categories => IconName::Asterisk,
            SubItem::Tags => IconName::Bot,
        }
    }

    pub fn label(&self) -> (label: &'static str)
        ensures
            label@ == self.label_text(),
    {
        match self {
            SubItem::Explorer => "Explorer",
            SubItem::Categories => "Categories",
            SubItem::Tags => "Tags",
        }
    }

    pub fn icons(&self) -> (icon: IconName)
        ensures
            icon == self.icon(),
    {
        match self {
            SubItem::Explorer => IconName::Star,
            SubItem::Categories => IconName::Asterisk,
            SubItem::Tags => IconName::Bot,
        }
    }
}

/// The state of the dock.
#[derive(Debug)]
pub struct LeftDock {
    active_items: HashMap<u8, bool>,
    last_active_item: Item,
    active_subitems: Option<SubItem>,
    collapsed: bool,
    side: Side,
    checked: bool,
}

/// What a dock holds, as plain values. The sections are filed under their
/// ordinals.
pub struct LeftDockView {
    pub active_items: Map<u8, bool>,
    pub last_active_item: Item,
    pub active_subitems: Option<SubItem>,
    pub collapsed: bool,
    pub side: Side,
    pub checked: bool,
}

impl View for LeftDock {
    type V = LeftDockView;

    closed spec fn view(&self) -> LeftDockView {
        LeftDockView {
            active_items: self.active_items@,
            last_active_item: self.last_active_item,
            active_subitems: self.active_subitems,
            collapsed: self.collapsed,
            side: self.side,
            checked: self.checked,
        }
    }
}

impl LeftDock {
    /// A dock on the left edge, expanded, with the library open and no view
    /// picked.
    pub fn new() -> (dock: LeftDock)
        ensures
            dock@ == (LeftDockView {
                active_items: Map::<u8, bool>::empty().insert(Item::Library.ordinal(), true),
                last_active_item: Item::Library,
                active_subitems: None,
                collapsed: false,
                side: Side::Left,
                checked: false,
            }),
    {
        let mut active_items: HashMap<u8, bool> = HashMap::new();
        active_items.insert(Item::Library.number(), true);
        LeftDock {
            active_items,
            last_active_item: Item::Library,
            active_subitems: None,
            collapsed: false,
            side: Side::Left,
            checked: false,
        }
    }

    /// Whether the section `item` is open.
    pub fn is_active(&self, item: Item) -> (active: bool)
        ensures
            active == (self@.active_items.contains_key(item.ordinal())
                && self@.active_items[item.ordinal()]),
    {
        match self.active_items.get(&item.number()) {
            Some(active) => *active,
            None => false,
        }
    }
}

} // verus!
