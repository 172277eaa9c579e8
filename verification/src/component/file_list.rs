//! The flat list panel: the entries of one directory and the one that is
//! picked among them.

use vstd::prelude::*;
use crate::component::{list_directory, DirEntry, EntryView};
use crate::listing::{is_ordered, keeps_ties};
use crate::text::same_text;

verus! {

/// The state of the list panel.
#[derive(Debug)]
pub struct FileList {
    entries: Vec<DirEntry>,
    dir: String,
    selected: Option<String>,
    selected_entry: Option<DirEntry>,
}

/// What the list panel holds, as plain values.
pub struct ListView {
    /// The entries shown, in order.
    pub entries: Seq<DirEntry>,
    /// The directory whose entries they are.
    pub dir: Seq<char>,
    /// The path of the picked entry, if any.
    pub selected: Option<Seq<char>>,
    /// The picked entry, if any.
    pub selected_entry: Option<EntryView>,
}

impl ListView {
    /// The picked path is the path of the picked entry.
    pub open spec fn wf(self) -> bool {
        self.selected == match self.selected_entry {
            Some(entry) => Some(entry.path),
            None => None,
        }
    }

    /// The panel showing `entries` as the listing of `dir`, with nothing
    /// picked.
    pub open spec fn showing(dir: Seq<char>, entries: Seq<DirEntry>) -> ListView {
        ListView { entries, dir, selected: None, selected_entry: None }
    }
}

impl View for FileList {
    type V = ListView;

    closed spec fn view(&self) -> ListView {
        ListView {
            entries: self.entries@,
            dir: self.dir@,
            selected: match self.selected {
                Some(path) => Some(path@),
                None => None,
            },
            selected_entry: match self.selected_entry {
                Some(entry) => Some(entry@),
                None => None,
            },
        }
    }
}

impl FileList {
    /// The panel showing `entries` as the listing of `dir`, with nothing
    /// picked.
    pub fn with_entries(dir: String, entries: Vec<DirEntry>) -> (list: FileList)
        ensures
            list@ == ListView::showing(dir@, entries@),
    {
        FileList { entries, dir, selected: None, selected_entry: None }
    }

    /// The panel for the directory `dir`, from what a read of it found:
    /// its entries in order, and none for a directory that could not be read.
    /// Nothing is picked.
    pub fn new(dir: String, read: Option<Vec<DirEntry>>) -> (list: FileList)
        ensures
            list@ == ListView::showing(dir@, list@.entries),
            is_ordered(list@.entries),
            match read {
                Some(found) => {
                    &&& keeps_ties(found@, list@.entries)
                    &&& list@.entries.to_multiset() == found@.to_multiset()
                },
                None => list@.entries.len() == 0,
            },
    {
        FileList::with_entries(dir, list_directory(read))
    }

    /// Picks `entry`.
    pub fn select_entry(&mut self, entry: DirEntry)
        ensures
            final(self)@ == (ListView {
                selected: Some(entry@.path),
                selected_entry: Some(entry@),
                ..old(self)@
            }),
    {
        self.selected = Some(entry.path.clone());
        self.selected_entry = Some(entry);
    }

    /// Turns the panel to the directory `dir`, from what a read of it found.
    /// Nothing is picked any more.
    pub fn update_directory(&mut self, dir: String, read: Option<Vec<DirEntry>>)
        ensures
            final(self)@ == ListView::showing(dir@, final(self)@.entries),
            is_ordered(final(self)@.entries),
            match read {
                Some(found) => {
                    &&& keeps_ties(found@, final(self)@.entries)
                    &&& final(self)@.entries.to_multiset() == found@.to_multiset()
                },
                None => final(self)@.entries.len() == 0,
            },
    {
        self.entries = list_directory(read);
        self.dir = dir;
        self.selected = None;
        self.selected_entry = None;
    }

    /// The picked entry, if any.
    pub fn get_selected_entry(&self) -> (entry: Option<&DirEntry>)
        ensures
            self@.selected_entry == match entry {
                Some(entry) => Some(entry@),
                None => None,
            },
    {
        self.selected_entry.as_ref()
    }

    /// Whether the entry at `path` is the picked one.
    pub fn is_selected(&self, path: &str) -> (is_selected: bool)
        ensures
            is_selected == (self@.selected == Some(path@)),
    {
        match &self.selected {
            Some(selected) => same_text(selected.as_str(), path),
            None => false,
        }
    }

    pub fn entries(&self) -> (entries: &Vec<DirEntry>)
        ensures
            entries@ == self@.entries,
    {
        &self.entries
    }

    pub fn dir(&self) -> (dir: &String)
        ensures
            dir@ == self@.dir,
    {
        &self.dir
    }
}

} // verus!
