//! The navigation state of the browser: the current directory, its listing,
//! the selected entry and what the content panel shows of it, together with
//! the transitions between such states.
//!
//! The state never reads the disk. A transition that needs a directory
//! listed or a file read answers with a [`Load`]; the caller fetches what it
//! names and hands the outcome back through the matching `..._loaded`
//! function. An outcome is applied whole to the state as it is then; nothing
//! ties it to the request that it answers.

use vstd::prelude::*;
use crate::component::content_viewer::preview::{loaded_view, GridView, ImageGrid};
use crate::component::content_viewer::{image_name, ContentViewer, ViewerView};
use crate::component::{list_directory, DirEntry, EntryView};
use crate::listing::{is_ordered, keeps_ties};

verus! {

/// What the caller has to fetch for the browser.
#[derive(Debug)]
pub enum Load {
    /// Nothing.
    Nothing,
    /// The children of the directory at this path, for `directory_loaded`.
    Directory(String),
    /// The text of the file at this path, for `text_loaded`.
    Text(String),
    /// The picture in the file at this path, for `image_loaded`.
    Image(String),
}

/// A request as plain values.
pub enum LoadView {
    Nothing,
    Directory(Seq<char>),
    Text(Seq<char>),
    Image(Seq<char>),
}

impl View for Load {
    type V = LoadView;

    open spec fn view(&self) -> LoadView {
        match self {
            Load::Nothing => LoadView::Nothing,
            Load::Directory(path) => LoadView::Directory(path@),
            Load::Text(path) => LoadView::Text(path@),
            Load::Image(path) => LoadView::Image(path@),
        }
    }
}

/// The request for the listing of the directory at `target`, if there is one.
pub open spec fn directory_request(target: Option<Seq<char>>) -> LoadView {
    match target {
        Some(path) => LoadView::Directory(path),
        None => LoadView::Nothing,
    }
}

/// Whether `entries` holds an entry with the name, kind and path of `entry`.
pub open spec fn lists(entries: Seq<DirEntry>, entry: EntryView) -> bool {
    exists|i: int| 0 <= i < entries.len() && (#[trigger] entries[i])@ == entry
}

/// Whether `entries` holds a file that lives at `path`.
pub open spec fn lists_file_at(entries: Seq<DirEntry>, path: Seq<char>) -> bool {
    exists|i: int|
        0 <= i < entries.len() && !(#[trigger] entries[i]).is_dir && entries[i].path@ == path
}

/// The outcome of reading a file as text, as plain values.
pub open spec fn read_view(read: Result<String, String>) -> Result<Seq<char>, Seq<char>> {
    match read {
        Ok(text) => Ok(text@),
        Err(message) => Err(message@),
    }
}

/// The navigation state.
#[derive(Debug)]
pub struct NavigationState {
    current_path: String,
    entries: Vec<DirEntry>,
    selected: Option<DirEntry>,
    viewer: ContentViewer,
}

/// What the navigation state holds, as plain values.
pub struct NavigationView {
    /// The directory that is shown.
    pub current_path: Seq<char>,
    /// The listing that was loaded last.
    pub entries: Seq<DirEntry>,
    /// The selected entry, if any.
    pub selected: Option<EntryView>,
    /// The content panel.
    pub viewer: ViewerView,
}

impl NavigationView {
    /// The listing is in order, and the selected entry, if any, is one of
    /// the listing loaded last.
    pub open spec fn wf(self) -> bool {
        &&& is_ordered(self.entries)
        &&& self.selected matches Some(entry) ==> lists(self.entries, entry)
    }

    /// The name of the selected entry, if any.
    pub open spec fn selected_name(self) -> Option<Seq<char>> {
        match self.selected {
            Some(entry) => Some(entry.name),
            None => None,
        }
    }

    /// The state after a move to the directory at `path`: nothing is
    /// selected and the content panel is empty. The listing stays until the
    /// new one is loaded.
    pub open spec fn navigated(self, path: Seq<char>) -> NavigationView {
        NavigationView {
            current_path: path,
            selected: None,
            viewer: ViewerView::empty(),
            ..self
        }
    }

    /// The state after a click on `entry`. A directory is moved to. A listed
    /// file becomes the selection; where it is a picture the content panel
    /// is cleared and waits for it, otherwise the panel stays as it is until
    /// the text arrives. A file that the listing does not hold is ignored.
    pub open spec fn clicked(self, entry: EntryView) -> NavigationView {
        if entry.is_dir {
            self.navigated(entry.path)
        } else if lists(self.entries, entry) {
            NavigationView {
                selected: Some(entry),
                viewer: if image_name(entry.name) {
                    ViewerView {
                        file_name: Some(entry.name),
                        file_path: Some(entry.path),
                        loading: true,
                        ..ViewerView::empty()
                    }
                } else {
                    self.viewer
                },
                ..self
            }
        } else {
            self
        }
    }

    /// What a click on `entry` asks the caller to fetch.
    pub open spec fn click_load(self, entry: EntryView) -> LoadView {
        if entry.is_dir {
            LoadView::Directory(entry.path)
        } else if lists(self.entries, entry) {
            if image_name(entry.name) {
                LoadView::Image(entry.path)
            } else {
                LoadView::Text(entry.path)
            }
        } else {
            LoadView::Nothing
        }
    }

    /// The state with `entries` as its listing. A selection that the new
    /// listing does not hold is dropped.
    pub open spec fn with_entries(self, entries: Seq<DirEntry>) -> NavigationView {
        NavigationView {
            entries,
            selected: match self.selected {
                Some(entry) => if lists(entries, entry) {
                    Some(entry)
                } else {
                    None
                },
                None => None,
            },
            ..self
        }
    }

    /// The state after the text of a file has arrived, or the message of the
    /// failure to read it. The panel shows it under the name of the
    /// selection.
    pub open spec fn with_text(self, read: Result<Seq<char>, Seq<char>>) -> NavigationView {
        NavigationView {
            viewer: match read {
                Ok(text) => ViewerView {
                    file_name: self.selected_name(),
                    content: Some(text),
                    ..ViewerView::empty()
                },
                Err(message) => ViewerView {
                    file_name: self.selected_name(),
                    error: Some(message),
                    ..ViewerView::empty()
                },
            },
            ..self
        }
    }

    /// The state after the outcome of a picture load has arrived.
    pub open spec fn with_image(self, loaded: Result<GridView, Seq<char>>) -> NavigationView {
        NavigationView { viewer: self.viewer.with_image(loaded), ..self }
    }
}

/// A click on a file leaves the current path alone, a click on a directory
/// clears the selection, and the selection stays within the listing.
pub proof fn lemma_clicked(state: NavigationView, entry: EntryView)
    requires
        state.wf(),
    ensures
        state.clicked(entry).wf(),
        !entry.is_dir ==> state.clicked(entry).current_path == state.current_path,
        entry.is_dir ==> state.clicked(entry).selected is None,
        state.clicked(entry).entries == state.entries,
{
}

/// Whatever arrives, the listing stays in order and the selection within
/// it.
pub proof fn lemma_loads_keep_selection_listed(
    state: NavigationView,
    entries: Seq<DirEntry>,
    read: Result<Seq<char>, Seq<char>>,
    loaded: Result<GridView, Seq<char>>,
    path: Seq<char>,
)
    requires
        state.wf(),
        is_ordered(entries),
    ensures
        state.navigated(path).wf(),
        state.with_entries(entries).wf(),
        state.with_text(read).wf(),
        state.with_image(loaded).wf(),
{
}

impl View for NavigationState {
    type V = NavigationView;

    closed spec fn view(&self) -> NavigationView {
        NavigationView {
            current_path: self.current_path@,
            entries: self.entries@,
            selected: match self.selected {
                Some(entry) => Some(entry@),
                None => None,
            },
            viewer: self.viewer@,
        }
    }
}

/// Whether `entries` holds an entry with the name, kind and path of `entry`.
pub fn contains_entry(entries: &Vec<DirEntry>, entry: &DirEntry) -> (found: bool)
    ensures
        found == lists(entries@, entry@),
{
    let mut i: usize = 0;
    while i < entries.len()
        invariant
            i <= entries.len(),
            forall|k: int| 0 <= k < i ==> (#[trigger] entries@[k])@ != entry@,
        decreases entries.len() - i,
    {
        if entries[i] == *entry {
            return true;
        }
        i += 1;
    }
    false
}

impl NavigationState {
    /// The state at the directory `path`, before its listing is loaded:
    /// nothing listed, nothing selected, nothing shown.
    pub fn new(path: String) -> (state: NavigationState)
        ensures
            state@ == (NavigationView {
                current_path: path@,
                entries: Seq::empty(),
                selected: None,
                viewer: ViewerView::empty(),
            }),
            state@.wf(),
    {
        NavigationState {
            current_path: path,
            entries: Vec::new(),
            selected: None,
            viewer: ContentViewer::new(),
        }
    }

    /// Moves to the directory at `path` and asks for its listing.
    pub fn navigate_to(&mut self, path: String) -> (load: Load)
        ensures
            final(self)@ == old(self)@.navigated(path@),
            load@ == LoadView::Directory(path@),
            old(self)@.wf() ==> final(self)@.wf(),
    {
        self.current_path = path.clone();
        self.selected = None;
        self.viewer.set_text(None, None);
        Load::Directory(path)
    }

    /// Takes a click on `entry`.
    pub fn click_entry(&mut self, entry: DirEntry) -> (load: Load)
        ensures
            final(self)@ == old(self)@.clicked(entry@),
            load@ == old(self)@.click_load(entry@),
            old(self)@.wf() ==> final(self)@.wf(),
    {
        if entry.is_dir {
            return self.navigate_to(entry.path);
        }
        if !contains_entry(&self.entries, &entry) {
            return Load::Nothing;
        }
        let path = entry.path.clone();
        let load = if ContentViewer::is_image_name(entry.name.as_str()) {
            self.viewer.set_image_path(Some(entry.name.clone()), path.clone());
            Load::Image(path)
        } else {
            Load::Text(path)
        };
        self.selected = Some(entry);
        load
    }

    /// Takes what a read of the current directory found, or nothing where
    /// it could not be read: the listing is replaced by the ordered entries,
    /// and by an empty listing for an unreadable directory.
    pub fn directory_loaded(&mut self, read: Option<Vec<DirEntry>>)
        ensures
            final(self)@ == old(self)@.with_entries(final(self)@.entries),
            is_ordered(final(self)@.entries),
            match read {
                Some(found) => {
                    &&& keeps_ties(found@, final(self)@.entries)
                    &&& final(self)@.entries.to_multiset() == found@.to_multiset()
                },
                None => final(self)@.entries.len() == 0,
            },
            old(self)@.wf() ==> final(self)@.wf(),
    {
        self.entries = list_directory(read);
        let keep = match &self.selected {
            Some(entry) => contains_entry(&self.entries, entry),
            None => true,
        };
        if !keep {
            self.selected = None;
        }
    }

    /// Takes the text of the selected file, or the message of the failure to
    /// read it, and shows it in the content panel.
    pub fn text_loaded(&mut self, read: Result<String, String>)
        ensures
            final(self)@ == old(self)@.with_text(read_view(read)),
            old(self)@.wf() ==> final(self)@.wf(),
    {
        let name = match &self.selected {
            Some(entry) => Some(entry.name.clone()),
            None => None,
        };
        match read {
            Ok(text) => self.viewer.set_text(name, Some(text)),
            Err(message) => self.viewer.set_failure(name, message),
        }
    }

    /// Takes the outcome of a picture load and shows it in the content
    /// panel.
    pub fn image_loaded(&mut self, loaded: Result<ImageGrid, String>)
        ensures
            final(self)@ == old(self)@.with_image(loaded_view(loaded)),
            old(self)@.wf() ==> final(self)@.wf(),
    {
        self.viewer.image_loaded(loaded);
    }

    pub fn current_path(&self) -> (path: &String)
        ensures
            path@ == self@.current_path,
    {
        &self.current_path
    }

    pub fn entries(&self) -> (entries: &Vec<DirEntry>)
        ensures
            entries@ == self@.entries,
    {
        &self.entries
    }

    pub fn selected(&self) -> (selected: Option<&DirEntry>)
        ensures
            self@.selected == match selected {
                Some(entry) => Some(entry@),
                None => None,
            },
    {
        self.selected.as_ref()
    }

    pub fn viewer(&self) -> (viewer: &ContentViewer)
        ensures
            viewer@ == self@.viewer,
    {
        &self.viewer
    }
}

} // verus!
