//! The browser with a directory tree at its side: the navigation state, the
//! path header and the tree, kept in step.
//!
//! Whoever carries out a request for the listing of a directory also loads
//! the items of the tree, which shows the same directory, and hands them to
//! `tree_loaded`.

use vstd::prelude::*;
use crate::component::file_tree::{FileTree, TreeItem, TreeView};
use crate::component::header::{Header, HeaderEvent, HeaderView};
use crate::component::content_viewer::preview::{loaded_view, ImageGrid};
use crate::component::content_viewer::ViewerView;
use crate::component::{DirEntry, EntryView};
use crate::listing::{is_ordered, keeps_ties};
use crate::navigation::{
    directory_request, lists_file_at, read_view, Load, LoadView, NavigationState, NavigationView,
};
use crate::paths::{final_name, is_part_of, is_proper_prefix_of, parent_named};
use crate::text::text_of;

verus! {

/// The state of the browser.
#[derive(Debug)]
pub struct Shelf {
    navigation: NavigationState,
    header: Header,
    file_tree: FileTree,
}

/// What the browser holds, as plain values.
pub struct ShelfView {
    pub navigation: NavigationView,
    pub header: HeaderView,
    pub file_tree: TreeView,
}

impl ShelfView {
    /// The selection lies within the listing, the path field shows the
    /// current path while it is not being edited, and the header and the
    /// navigation state agree on the current path.
    pub open spec fn wf(self) -> bool {
        &&& self.navigation.wf()
        &&& self.header.wf()
        &&& self.header.current_path == self.navigation.current_path
    }

    /// The browser as it starts: at the working directory, or at the root
    /// where that is not known, with nothing loaded yet.
    pub open spec fn started(working_directory: Option<Seq<char>>) -> ShelfView {
        let path = match working_directory {
            Some(directory) => directory,
            None => "/"@,
        };
        ShelfView {
            navigation: NavigationView {
                current_path: path,
                entries: Seq::empty(),
                selected: None,
                viewer: ViewerView::empty(),
            },
            header: HeaderView { current_path: path, path_input: path, is_editing: false },
            file_tree: TreeView { root: path, items: Seq::empty(), selected_item: None },
        }
    }

    /// The browser after a move to the directory at `path`: header and tree
    /// follow the navigation state.
    pub open spec fn navigated(self, path: Seq<char>) -> ShelfView {
        ShelfView {
            navigation: self.navigation.navigated(path),
            header: self.header.moved_to(path),
            file_tree: TreeView { root: path, ..self.file_tree },
        }
    }

    /// The browser after a click on `entry`.
    pub open spec fn clicked(self, entry: EntryView) -> ShelfView {
        if entry.is_dir {
            self.navigated(entry.path)
        } else {
            ShelfView { navigation: self.navigation.clicked(entry), ..self }
        }
    }

    /// The browser after `item` was picked in the tree, where `name` is the
    /// final component of its path and `is_dir` tells whether it is a
    /// directory: the tree remembers the item, and the file it stands for is
    /// clicked. As with every click, a file that the listing does not hold,
    /// such as one below the first level of the tree, is not opened.
    pub open spec fn picked(self, item: TreeItem, name: Seq<char>, is_dir: bool) -> ShelfView {
        (ShelfView {
            file_tree: TreeView { selected_item: Some(item), ..self.file_tree },
            ..self
        }).clicked(EntryView { name, is_dir, path: item.id_text() })
    }

    /// The browser after a key stroke in the header. A submitted path that
    /// is accepted is moved to.
    pub open spec fn after_key(self, key: Seq<char>, input_is_directory: bool) -> ShelfView {
        let typed = ShelfView { header: self.header.after_key(key, input_is_directory), ..self };
        match self.header.key_target(key, input_is_directory) {
            Some(target) => typed.navigated(target),
            None => typed,
        }
    }

    /// The browser after a step up to `parent`, the parent of the current
    /// path, if it has one.
    pub open spec fn after_back(self, parent: Option<Seq<char>>) -> ShelfView {
        match parent {
            Some(parent) => self.navigated(parent),
            None => self,
        }
    }

    /// The browser after `text` was submitted as a path: an existing
    /// directory is moved to, anything else changes nothing.
    pub open spec fn submitted(self, text: Seq<char>, is_directory: bool) -> ShelfView {
        if is_directory {
            self.navigated(text)
        } else {
            self
        }
    }
}

/// A click on a file leaves the current path alone; a click on a directory
/// clears the selection; and a click breaks none of the browser's rules.
pub proof fn lemma_clicked(shelf: ShelfView, entry: EntryView)
    requires
        shelf.wf(),
    ensures
        shelf.clicked(entry).wf(),
        !entry.is_dir ==> shelf.clicked(entry).navigation.current_path
            == shelf.navigation.current_path,
        entry.is_dir ==> shelf.clicked(entry).navigation.selected is None,
{
}

/// Submitting a text that is no existing directory changes neither the
/// current path nor the listing, whether it is handed over as text or typed
/// into the header and sent with `enter`.
pub proof fn lemma_rejected_path_changes_nothing(shelf: ShelfView, text: Seq<char>)
    ensures
        shelf.submitted(text, false) == shelf,
        shelf.after_key("enter"@, false) == shelf,
{
}

/// No key stroke in the header, no step up and no submitted path breaks the
/// browser's rules.
pub proof fn lemma_header_moves_keep_rules(
    shelf: ShelfView,
    key: Seq<char>,
    input_is_directory: bool,
    parent: Option<Seq<char>>,
    text: Seq<char>,
)
    requires
        shelf.wf(),
    ensures
        shelf.after_key(key, input_is_directory).wf(),
        shelf.after_back(parent).wf(),
        shelf.submitted(text, input_is_directory).wf(),
{
}

impl View for Shelf {
    type V = ShelfView;

    closed spec fn view(&self) -> ShelfView {
        ShelfView {
            navigation: self.navigation@,
            header: self.header@,
            file_tree: self.file_tree@,
        }
    }
}

impl Shelf {
    /// The browser as it starts, and the request for the listing of its
    /// directory.
    pub fn new(working_directory: Option<String>) -> (started: (Shelf, Load))
        ensures
            started.0@ == ShelfView::started(text_of(working_directory)),
            started.0@.wf(),
            started.1@ == LoadView::Directory(started.0@.navigation.current_path),
    {
        let header = Header::view(None, working_directory);
        let path = header.current_path().clone();
        let mut file_tree = FileTree::view();
        file_tree.set_root_path(path.clone());
        let navigation = NavigationState::new(path.clone());
        (Shelf { navigation, header, file_tree }, Load::Directory(path))
    }

    /// Takes a click on `entry`: a directory is moved to, a listed file is
    /// selected and its content asked for, any other file is ignored.
    pub fn handle_item_click(&mut self, entry: DirEntry) -> (load: Load)
        ensures
            final(self)@ == old(self)@.clicked(entry@),
            load@ == old(self)@.navigation.click_load(entry@),
            old(self)@.wf() ==> final(self)@.wf(),
    {
        if entry.is_dir {
            self.navigate_to_directory(entry.path)
        } else {
            self.navigation.click_entry(entry)
        }
    }

    /// Moves to the directory at `path` and asks for its listing. The
    /// selection and the content panel are cleared.
    pub fn navigate_to_directory(&mut self, path: String) -> (load: Load)
        ensures
            final(self)@ == old(self)@.navigated(path@),
            load@ == LoadView::Directory(path@),
            old(self)@.wf() ==> final(self)@.wf(),
    {
        self.header.set_path(path.clone());
        self.file_tree.set_root_path(path.clone());
        self.navigation.navigate_to(path)
    }

    /// Takes the pick of `item` in the tree. `is_dir` tells whether the
    /// item's path is a directory. The tree remembers the item, and the file
    /// is clicked under the final component of its path, or an empty name.
    ///
    /// A directory is moved to from any level of the tree. A file is opened
    /// only where the listing of the current directory holds it, that is,
    /// from the first level of the tree: the selection never leaves the
    /// listing. A pick of a file further down is remembered by the tree and
    /// changes nothing else; its directory has to be moved to first.
    pub fn tree_item_selected(&mut self, item: TreeItem, is_dir: bool) -> (load: Load)
        ensures
            final(self)@ == old(self)@.picked(item, final_name(item.id_text()), is_dir),
            load@ == old(self)@.navigation.click_load(
                EntryView { name: final_name(item.id_text()), is_dir, path: item.id_text() },
            ),
            is_part_of(final_name(item.id_text()), item.id_text()),
            !is_dir && !lists_file_at(old(self)@.navigation.entries, item.id_text()) ==> {
                &&& final(self)@.navigation == old(self)@.navigation
                &&& load@ == LoadView::Nothing
            },
            old(self)@.wf() ==> final(self)@.wf(),
    {
        let entry = DirEntry::from_path(item.id().clone(), is_dir);
        self.file_tree.select_item(item);
        self.handle_item_click(entry)
    }

    /// Whether the outcome of this key stroke depends on the text of the
    /// path field naming an existing directory, so that the caller has to
    /// look.
    pub fn needs_directory_check(&self, key: &str) -> (needed: bool)
        ensures
            needed == (self@.header.is_editing && key@ == "enter"@),
    {
        self.header.needs_directory_check(key)
    }

    /// Takes a key stroke in the header. `input_is_directory` tells whether
    /// the text of the path field names an existing directory. A path that
    /// is submitted and accepted is moved to.
    pub fn key_down(&mut self, key: &str, input_is_directory: bool) -> (load: Load)
        ensures
            final(self)@ == old(self)@.after_key(key@, input_is_directory),
            load@ == directory_request(old(self)@.header.key_target(key@, input_is_directory)),
            old(self)@.wf() ==> final(self)@.wf(),
            !input_is_directory ==> final(self)@.navigation == old(self)@.navigation,
    {
        match self.header.key_down(key, input_is_directory) {
            Some(HeaderEvent::NavigateTo(path)) => self.navigate_to_directory(path),
            None => Load::Nothing,
        }
    }

    /// Turns the path field to editing, as a click on it does.
    pub fn begin_editing(&mut self)
        ensures
            final(self)@ == (ShelfView {
                header: HeaderView { is_editing: true, ..old(self)@.header },
                ..old(self)@
            }),
            old(self)@.wf() ==> final(self)@.wf(),
    {
        self.header.begin_editing();
    }

    /// Steps up to the parent of the current path, where it has one, and
    /// asks for its listing. The parent is a shorter beginning of the path.
    pub fn go_back(&mut self) -> (load: Load)
        ensures
            final(self)@ == old(self)@.after_back(parent_named(old(self)@.header.current_path)),
            load@ == directory_request(parent_named(old(self)@.header.current_path)),
            parent_named(old(self)@.header.current_path) matches Some(parent)
                ==> is_proper_prefix_of(parent, old(self)@.header.current_path),
            old(self)@.wf() ==> final(self)@.wf(),
    {
        match self.header.go_back() {
            Some(HeaderEvent::NavigateTo(path)) => self.navigate_to_directory(path),
            None => Load::Nothing,
        }
    }

    /// Takes `text` as a path to move to. `is_directory` tells whether it
    /// names an existing directory; anything else is not moved to.
    pub fn submit_path(&mut self, text: String, is_directory: bool) -> (load: Load)
        ensures
            final(self)@ == old(self)@.submitted(text@, is_directory),
            load@ == (if is_directory {
                LoadView::Directory(text@)
            } else {
                LoadView::Nothing
            }),
            old(self)@.wf() ==> final(self)@.wf(),
    {
        if is_directory {
            self.navigate_to_directory(text)
        } else {
            Load::Nothing
        }
    }

    /// Takes what a read of the current directory found, or nothing where
    /// it could not be read: the listing is replaced by the ordered entries,
    /// and by an empty listing for an unreadable directory. A selection that
    /// the new listing does not hold is dropped.
    pub fn directory_loaded(&mut self, read: Option<Vec<DirEntry>>)
        ensures
            final(self)@ == (ShelfView {
                navigation: old(self)@.navigation.with_entries(final(self)@.navigation.entries),
                ..old(self)@
            }),
            is_ordered(final(self)@.navigation.entries),
            match read {
                Some(found) => {
                    &&& keeps_ties(found@, final(self)@.navigation.entries)
                    &&& final(self)@.navigation.entries.to_multiset() == found@.to_multiset()
                },
                None => final(self)@.navigation.entries.len() == 0,
            },
            old(self)@.wf() ==> final(self)@.wf(),
    {
        self.navigation.directory_loaded(read);
    }

    /// Takes the text of the selected file, or the message of the failure to
    /// read it, and shows it in the content panel.
    pub fn text_loaded(&mut self, read: Result<String, String>)
        ensures
            final(self)@ == (ShelfView {
                navigation: old(self)@.navigation.with_text(read_view(read)),
                ..old(self)@
            }),
            old(self)@.wf() ==> final(self)@.wf(),
    {
        self.navigation.text_loaded(read);
    }

    /// Takes the outcome of a picture load and shows it in the content
    /// panel.
    pub fn image_loaded(&mut self, loaded: Result<ImageGrid, String>)
        ensures
            final(self)@ == (ShelfView {
                navigation: old(self)@.navigation.with_image(loaded_view(loaded)),
                ..old(self)@
            }),
            old(self)@.wf() ==> final(self)@.wf(),
    {
        self.navigation.image_loaded(loaded);
    }

    /// Takes the loaded items of the tree's root directory.
    pub fn tree_loaded(&mut self, items: Vec<TreeItem>)
        ensures
            final(self)@ == (ShelfView {
                file_tree: TreeView { items: items@, ..old(self)@.file_tree },
                ..old(self)@
            }),
            old(self)@.wf() ==> final(self)@.wf(),
    {
        self.file_tree.set_items(items);
    }

    pub fn navigation(&self) -> (navigation: &NavigationState)
        ensures
            navigation@ == self@.navigation,
    {
        &self.navigation
    }

    pub fn header(&self) -> (header: &Header)
        ensures
            header@ == self@.header,
    {
        &self.header
    }

    pub fn file_tree(&self) -> (file_tree: &FileTree)
        ensures
            file_tree@ == self@.file_tree,
    {
        &self.file_tree
    }
}

} // verus!
