//! The browser with a flat list at its side: the navigation state, the path
//! header and the list of the current directory, kept in step.

use vstd::prelude::*;
use crate::component::content_viewer::preview::{loaded_view, ImageGrid};
use crate::component::content_viewer::ViewerView;
use crate::component::file_list::{FileList, ListView};
use crate::component::header::{Header, HeaderEvent, HeaderView};
use crate::component::{clone_entries, DirEntry, EntryView};
use crate::listing::{is_ordered, keeps_ties};
use crate::navigation::{
    directory_request, read_view, Load, LoadView, NavigationState, NavigationView,
};
use crate::paths::{is_proper_prefix_of, parent_named};
use crate::text::text_of;

verus! {

/// The state of the browser.
#[derive(Debug)]
pub struct Root {
    navigation: NavigationState,
    header: Header,
    file_list: FileList,
}

/// What the browser holds, as plain values.
pub struct RootView {
    pub navigation: NavigationView,
    pub header: HeaderView,
    pub file_list: ListView,
}

impl RootView {
    /// The selection lies within the listing, the path field shows the
    /// current path while it is not being edited, header and navigation
    /// state agree on the current path, and the list shows the listing.
    pub open spec fn wf(self) -> bool {
        &&& self.navigation.wf()
        &&& self.header.wf()
        &&& self.header.current_path == self.navigation.current_path
        &&& self.file_list.wf()
        &&& self.file_list.entries == self.navigation.entries
    }

    /// The browser as it starts: at the working directory, or at the root
    /// where that is not known, with nothing loaded yet.
    pub open spec fn started(working_directory: Option<Seq<char>>) -> RootView {
        let path = match working_directory {
            Some(directory) => directory,
            None => "/"@,
        };
        RootView {
            navigation: NavigationView {
                current_path: path,
                entries: Seq::empty(),
                selected: None,
                viewer: ViewerView::empty(),
            },
            header: HeaderView { current_path: path, path_input: path, is_editing: false },
            file_list: ListView::showing(path, Seq::empty()),
        }
    }

    /// The browser after a move to the directory at `path`. The list keeps
    /// what it shows until the new listing is loaded.
    pub open spec fn navigated(self, path: Seq<char>) -> RootView {
        RootView {
            navigation: self.navigation.navigated(path),
            header: self.header.moved_to(path),
            ..self
        }
    }

    /// The browser after a click on `entry`.
    pub open spec fn clicked(self, entry: EntryView) -> RootView {
        if entry.is_dir {
            self.navigated(entry.path)
        } else {
            RootView { navigation: self.navigation.clicked(entry), ..self }
        }
    }

    /// The browser after `entry` was picked in the list: the list marks it,
    /// and it is clicked.
    pub open spec fn picked(self, entry: EntryView) -> RootView {
        (RootView {
            file_list: ListView {
                selected: Some(entry.path),
                selected_entry: Some(entry),
                ..self.file_list
            },
            ..self
        }).clicked(entry)
    }

    /// The browser after a key stroke in the header. A submitted path that
    /// is accepted is moved to.
    pub open spec fn after_key(self, key: Seq<char>, input_is_directory: bool) -> RootView {
        let typed = RootView { header: self.header.after_key(key, input_is_directory), ..self };
        match self.header.key_target(key, input_is_directory) {
            Some(target) => typed.navigated(target),
            None => typed,
        }
    }

    /// The browser after a step up to `parent`, the parent of the current
    /// path, if it has one.
    pub open spec fn after_back(self, parent: Option<Seq<char>>) -> RootView {
        match parent {
            Some(parent) => self.navigated(parent),
            None => self,
        }
    }

    /// The browser after `text` was submitted as a path: an existing
    /// directory is moved to, anything else changes nothing.
    pub open spec fn submitted(self, text: Seq<char>, is_directory: bool) -> RootView {
        if is_directory {
            self.navigated(text)
        } else {
            self
        }
    }

    /// The browser with `entries` as the listing of its directory: the list
    /// shows them with nothing picked, and a selection that they do not hold
    /// is dropped.
    pub open spec fn with_entries(self, entries: Seq<DirEntry>) -> RootView {
        RootView {
            navigation: self.navigation.with_entries(entries),
            file_list: ListView::showing(self.navigation.current_path, entries),
            ..self
        }
    }
}

/// A click on a file leaves the current path alone; a click on a directory
/// clears the selection; and neither a click nor a pick in the list breaks
/// the browser's rules.
pub proof fn lemma_clicked(root: RootView, entry: EntryView)
    requires
        root.wf(),
    ensures
        root.clicked(entry).wf(),
        root.picked(entry).wf(),
        !entry.is_dir ==> root.clicked(entry).navigation.current_path
            == root.navigation.current_path,
        entry.is_dir ==> root.clicked(entry).navigation.selected is None,
{
}

/// Submitting a text that is no existing directory changes neither the
/// current path nor the listing, whether it is handed over as text or typed
/// into the header and sent with `enter`.
pub proof fn lemma_rejected_path_changes_nothing(root: RootView, text: Seq<char>)
    ensures
        root.submitted(text, false) == root,
        root.after_key("enter"@, false) == root,
{
}

/// No key stroke in the header, no step up, no submitted path and no loaded
/// listing breaks the browser's rules.
pub proof fn lemma_moves_keep_rules(
    root: RootView,
    key: Seq<char>,
    input_is_directory: bool,
    parent: Option<Seq<char>>,
    text: Seq<char>,
    entries: Seq<DirEntry>,
)
    requires
        root.wf(),
        is_ordered(entries),
    ensures
        root.after_key(key, input_is_directory).wf(),
        root.after_back(parent).wf(),
        root.submitted(text, input_is_directory).wf(),
        root.with_entries(entries).wf(),
{
}

impl View for Root {
    type V = RootView;

    closed spec fn view(&self) -> RootView {
        RootView {
            navigation: self.navigation@,
            header: self.header@,
            file_list: self.file_list@,
        }
    }
}

impl Root {
    /// The browser as it starts, and the request for the listing of its
    /// directory.
    pub fn view(working_directory: Option<String>) -> (started: (Root, Load))
        ensures
            started.0@ == RootView::started(text_of(working_directory)),
            started.0@.wf(),
            started.1@ == LoadView::Directory(started.0@.navigation.current_path),
    {
        let header = Header::new(None, working_directory);
        let path = header.current_path().clone();
        let file_list = FileList::with_entries(path.clone(), Vec::new());
        let navigation = NavigationState::new(path.clone());
        (Root { navigation, header, file_list }, Load::Directory(path))
    }

    /// Takes the pick of `entry` in the list: the list marks it, and it is
    /// clicked.
    pub fn select_entry(&mut self, entry: DirEntry) -> (load: Load)
        ensures
            final(self)@ == old(self)@.picked(entry@),
            load@ == old(self)@.navigation.click_load(entry@),
            old(self)@.wf() ==> final(self)@.wf(),
    {
        self.file_list.select_entry(entry.clone());
        self.handle_item_click(entry)
    }

    /// Takes a click on `entry`: a directory is moved to, a listed file is
    /// selected and its content asked for, any other file is ignored.
    pub fn handle_item_click(&mut self, entry: DirEntry) -> (load: Load)
        ensures
            final(self)@ == old(self)@.clicked(entry@),
            load@ == old(self)@.navigation.click_load(entry@),
            old(self)@.wf() ==> final(self)@.wf(),
    {
        if entry.is_dir {
            self.navigate_to_directory(entry.path)
        } else {
            self.navigation.click_entry(entry)
        }
    }

    /// Moves to the directory at `path` and asks for its listing. The
    /// selection and the content panel are cleared.
    pub fn navigate_to_directory(&mut self, path: String) -> (load: Load)
        ensures
            final(self)@ == old(self)@.navigated(path@),
            load@ == LoadView::Directory(path@),
            old(self)@.wf() ==> final(self)@.wf(),
    {
        self.header.set_path(path.clone());
        self.navigation.navigate_to(path)
    }

    /// Whether the outcome of this key stroke depends on the text of the
    /// path field naming an existing directory, so that the caller has to
    /// look.
    pub fn needs_directory_check(&self, key: &str) -> (needed: bool)
        ensures
            needed == (self@.header.is_editing && key@ == "enter"@),
    {
        self.header.needs_directory_check(key)
    }

    /// Takes a key stroke in the header. `input_is_directory` tells whether
    /// the text of the path field names an existing directory. A path that
    /// is submitted and accepted is moved to.
    pub fn key_down(&mut self, key: &str, input_is_directory: bool) -> (load: Load)
        ensures
            final(self)@ == old(self)@.after_key(key@, input_is_directory),
            load@ == directory_request(old(self)@.header.key_target(key@, input_is_directory)),
            old(self)@.wf() ==> final(self)@.wf(),
            !input_is_directory ==> final(self)@.navigation == old(self)@.navigation,
    {
        match self.header.key_down(key, input_is_directory) {
            Some(HeaderEvent::NavigateTo(path)) => self.navigate_to_directory(path),
            None => Load::Nothing,
        }
    }

    /// Turns the path field to editing, as a click on it does.
    pub fn begin_editing(&mut self)
        ensures
            final(self)@ == (RootView {
                header: HeaderView { is_editing: true, ..old(self)@.header },
                ..old(self)@
            }),
            old(self)@.wf() ==> final(self)@.wf(),
    {
        self.header.begin_editing();
    }

    /// Steps up to the parent of the current path, where it has one, and
    /// asks for its listing. The parent is a shorter beginning of the path.
    pub fn go_back(&mut self) -> (load: Load)
        ensures
            final(self)@ == old(self)@.after_back(parent_named(old(self)@.header.current_path)),
            load@ == directory_request(parent_named(old(self)@.header.current_path)),
            parent_named(old(self)@.header.current_path) matches Some(parent)
                ==> is_proper_prefix_of(parent, old(self)@.header.current_path),
            old(self)@.wf() ==> final(self)@.wf(),
    {
        match self.header.go_back() {
            Some(HeaderEvent::NavigateTo(path)) => self.navigate_to_directory(path),
            None => Load::Nothing,
        }
    }

    /// Takes `text` as a path to move to. `is_directory` tells whether it
    /// names an existing directory; anything else is not moved to.
    pub fn submit_path(&mut self, text: String, is_directory: bool) -> (load: Load)
        ensures
            final(self)@ == old(self)@.submitted(text@, is_directory),
            load@ == (if is_directory {
                LoadView::Directory(text@)
            } else {
                LoadView::Nothing
            }),
            old(self)@.wf() ==> final(self)@.wf(),
    {
        if is_directory {
            self.navigate_to_directory(text)
        } else {
            Load::Nothing
        }
    }

    /// Takes what a read of the current directory found, or nothing where
    /// it could not be read: the listing is replaced by the ordered entries,
    /// and by an empty listing for an unreadable directory. The list shows
    /// the new listing.
    pub fn directory_loaded(&mut self, read: Option<Vec<DirEntry>>)
        ensures
            final(self)@ == old(self)@.with_entries(final(self)@.navigation.entries),
            is_ordered(final(self)@.navigation.entries),
            match read {
                Some(found) => {
                    &&& keeps_ties(found@, final(self)@.navigation.entries)
                    &&& final(self)@.navigation.entries.to_multiset() == found@.to_multiset()
                },
                None => final(self)@.navigation.entries.len() == 0,
            },
            old(self)@.wf() ==> final(self)@.wf(),
    {
        self.navigation.directory_loaded(read);
        self.file_list = FileList::with_entries(
            self.navigation.current_path().clone(),
            clone_entries(self.navigation.entries()),
        );
    }

    /// Takes the text of the selected file, or the message of the failure to
    /// read it, and shows it in the content panel.
    pub fn text_loaded(&mut self, read: Result<String, String>)
        ensures
            final(self)@ == (RootView {
                navigation: old(self)@.navigation.with_text(read_view(read)),
                ..old(self)@
            }),
            old(self)@.wf() ==> final(self)@.wf(),
    {
        self.navigation.text_loaded(read);
    }

    /// Takes the outcome of a picture load and shows it in the content
    /// panel.
    pub fn image_loaded(&mut self, loaded: Result<ImageGrid, String>)
        ensures
            final(self)@ == (RootView {
                navigation: old(self)@.navigation.with_image(loaded_view(loaded)),
                ..old(self)@
            }),
            old(self)@.wf() ==> final(self)@.wf(),
    {
        self.navigation.image_loaded(loaded);
    }

    pub fn navigation(&self) -> (navigation: &NavigationState)
        ensures
            navigation@ == self@.navigation,
    {
        &self.navigation
    }

    pub fn header(&self) -> (header: &Header)
        ensures
            header@ == self@.header,
    {
        &self.header
    }

    pub fn file_list(&self) -> (file_list: &FileList)
        ensures
            file_list@ == self@.file_list,
    {
        &self.file_list
    }
}

} // verus!
