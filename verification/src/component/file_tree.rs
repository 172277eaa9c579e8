//! The directory tree panel: which files it shows, in what order, and which
//! of them is selected.

use vstd::prelude::*;
use vstd::seq_lib::to_multiset_contains;
use autocorrect::ignorer::Ignorer;
use crate::listing::{
    arrange, is_ordered, keeps_ties, lemma_arrangement_unique, Listed,
};
use crate::text::{chars_of, same_text, text_of};

verus! {

/// The rules of the ignore files of a directory; only asked, never read.
#[verifier::external_type_specification]
#[verifier::external_body]
pub struct ExIgnorer(Ignorer);

/// The relative paths that the rules of an ignorer exclude.
pub uninterp spec fn ignored_paths(ignorer: Ignorer) -> Set<Seq<char>>;

/// Whether a character separates the components of a path on some platform.
pub open spec fn is_separator(c: char) -> bool {
    c == '/' || c == '\\'
}

/// Whether a character is an ASCII letter.
pub open spec fn is_ascii_letter(c: char) -> bool {
    ('a' <= c && c <= 'z') || ('A' <= c && c <= 'Z')
}

/// Whether a component of `path` starts at place `at` that reads as a drive,
/// a letter and a colon, with a separator after it. Where paths name drives,
/// what starts there is rooted.
pub open spec fn drive_at(path: Seq<char>, at: int) -> bool {
    &&& 0 <= at && at + 2 < path.len()
    &&& at > 0 ==> is_separator(path[at - 1])
    &&& is_ascii_letter(path[at])
    &&& path[at + 1] == ':'
    &&& is_separator(path[at + 2])
}

/// Whether the rules of an ignorer can be asked about `path` on every
/// platform: it does not begin with a separator, no component of it is
/// empty, and none reads as a drive with a separator after it.
pub open spec fn consultable(path: Seq<char>) -> bool {
    &&& path.len() > 0 ==> !is_separator(path[0])
    &&& forall|i: int|
        0 <= i && i + 1 < path.len() ==> !(is_separator(#[trigger] path[i]) && is_separator(
            path[i + 1],
        ))
    &&& forall|i: int| !#[trigger] drive_at(path, i)
}

/// Whether the rules exclude the relative path `path`, as
/// `autocorrect::ignorer::Ignorer::is_ignored` tells it. The call panics on a
/// path that is rooted once a leading `./` and the ignorer's own root are
/// stripped from it; no consultable path is, on any platform. Believed of
/// it: the answer is the same for the same ignorer and path.
#[verifier::external_body]
fn ignorer_excludes(ignorer: &Ignorer, path: &str) -> (excluded: bool)
    requires
        consultable(path@),
    ensures
        excluded == ignored_paths(*ignorer).contains(path@),
{
    ignorer.is_ignored(path)
}

/// Whether a character separates the components of a path on some platform.
fn separates(c: char) -> (separates: bool)
    ensures
        separates == is_separator(c),
{
    c == '/' || c == '\\'
}

/// Whether the rules of an ignorer can be asked about `path`.
pub fn is_consultable(path: &str) -> (consultable: bool)
    ensures
        consultable == self::consultable(path@),
{
    let chars = chars_of(path);
    let length: usize = chars.len();
    if length > 0 && separates(chars[0]) {
        return false;
    }
    let mut i: usize = 0;
    while i < length
        invariant
            i <= length,
            length == chars.len(),
            chars@ == path@,
            forall|k: int|
                0 <= k < i && k + 1 < length ==> !(is_separator(#[trigger] chars@[k])
                    && is_separator(chars@[k + 1])),
            forall|k: int| 0 <= k < i ==> !#[trigger] drive_at(chars@, k),
        decreases length - i,
    {
        let here: char = chars[i];
        if length - i > 1 && separates(here) && separates(chars[i + 1]) {
            return false;
        }
        let starts: bool = i == 0 || separates(chars[i - 1]);
        let letter: bool = ('a' <= here && here <= 'z') || ('A' <= here && here <= 'Z');
        if starts && letter && length - i > 2 && chars[i + 1] == ':' && separates(chars[i + 2]) {
            assert(drive_at(chars@, i as int));
            return false;
        }
        i += 1;
    }
    true
}

/// Whether the tree leaves out a file: the rules exclude its path relative
/// to the root of the tree, or it is named `.git`. A path that the rules
/// cannot be asked about is not excluded by them.
pub open spec fn hidden(ignored: Set<Seq<char>>, relative_path: Seq<char>, name: Option<Seq<char>>)
    -> bool {
    ||| consultable(relative_path) && ignored.contains(relative_path)
    ||| name == Some(".git"@)
}

/// Whether the tree leaves out the file at `relative_path`, seen from the
/// root of the tree, whose name is `name` where it is valid text.
pub fn is_hidden(ignorer: &Ignorer, relative_path: &str, name: Option<&str>) -> (is_hidden:
    bool)
    ensures
        is_hidden == hidden(
            ignored_paths(*ignorer),
            relative_path@,
            match name {
                Some(name) => Some(name@),
                None => None,
            },
        ),
{
    if is_consultable(relative_path) && ignorer_excludes(ignorer, relative_path) {
        return true;
    }
    match name {
        Some(name) => same_text(name, ".git"),
        None => false,
    }
}

/// A child of a directory as a read of the directory found it.
#[derive(Debug)]
pub struct FoundChild {
    /// Where the child lives; the tree tells its items apart by it.
    pub path: String,
    /// The same, seen from the root of the tree.
    pub relative_path: String,
    /// The child's name, where it is valid text.
    pub name: Option<String>,
    /// Whether the child is a directory.
    pub is_dir: bool,
}

impl FoundChild {
    /// Whether the tree shows the child: it is not hidden.
    pub open spec fn shown(self, ignored: Set<Seq<char>>) -> bool {
        !hidden(ignored, self.relative_path@, text_of(self.name))
    }
}

/// The children that the tree shows, each once, in the order in which they
/// were found.
pub open spec fn visible(found: Seq<FoundChild>, ignored: Set<Seq<char>>) -> Seq<FoundChild> {
    found.filter(|child: FoundChild| child.shown(ignored))
}

/// The children of one directory that the tree shows, from what a read of
/// the directory found: those that are not hidden, in the order found. A
/// directory that could not be read has none.
pub fn visible_children(ignorer: &Ignorer, read: Option<Vec<FoundChild>>) -> (kept: Vec<
    FoundChild,
>)
    ensures
        kept@ == match read {
            Some(found) => visible(found@, ignored_paths(*ignorer)),
            None => Seq::empty(),
        },
{
    let mut kept: Vec<FoundChild> = Vec::new();
    let found = match read {
        Some(found) => found,
        None => {
            return kept;
        },
    };
    let ghost ignored = ignored_paths(*ignorer);
    let ghost shows = |child: FoundChild| child.shown(ignored);
    proof {
        assert(found@.take(0).filter(shows) =~= Seq::<FoundChild>::empty()) by {
            reveal(Seq::filter);
        }
    }
    for child in it: found
        invariant
            ignored == ignored_paths(*ignorer),
            shows == (|child: FoundChild| child.shown(ignored)),
            it.seq() == found@,
            kept@ == found@.take(it.index()).filter(shows),
    {
        let ghost before = found@.take(it.index());
        let is_hidden = match &child.name {
            Some(name) => is_hidden(ignorer, child.relative_path.as_str(), Some(name.as_str())),
            None => is_hidden(ignorer, child.relative_path.as_str(), None),
        };
        proof {
            before.lemma_filter_push(child, shows);
            assert(found@.take(it.index() + 1) =~= before.push(child));
        }
        if !is_hidden {
            kept.push(child);
        }
    }
    assert(found@.take(found@.len() as int) =~= found@);
    kept
}

/// `inside` holds the items `given`, put in order: directories first, then
/// files, each group by label, and items of one rank as they were given.
/// Items given in order are held as given.
pub open spec fn holds_in_order(inside: Seq<TreeItem>, given: Seq<TreeItem>) -> bool {
    &&& is_ordered(inside)
    &&& keeps_ties(given, inside)
    &&& inside.to_multiset() == given.to_multiset()
    &&& is_ordered(given) ==> inside == given
}

/// A file or directory in the tree. A directory holds its visible children,
/// always in order: directories first, then files, each group by label.
#[derive(Debug)]
pub struct TreeItem {
    id: String,
    label: String,
    is_dir: bool,
    children: Vec<TreeItem>,
}

impl TreeItem {
    /// The path of the file, by which the item is told apart.
    pub closed spec fn id_text(&self) -> Seq<char> {
        self.id@
    }

    /// The text shown for the item.
    pub closed spec fn label_text(&self) -> Seq<char> {
        self.label@
    }

    /// Whether the item is a directory.
    pub closed spec fn is_folder(&self) -> bool {
        self.is_dir
    }

    /// The items inside a directory.
    pub closed spec fn items(&self) -> Seq<TreeItem> {
        self.children@
    }

    /// Every item holds what is inside it in order, at every level.
    #[verifier::type_invariant]
    spec fn in_order(self) -> bool {
        self.ordered_within()
    }

    /// The items inside are in order, and so are the items inside each of
    /// them, at every level.
    pub closed spec fn ordered_within(&self) -> bool
        decreases self,
    {
        &&& is_ordered(self.children@)
        &&& forall|i: int|
            0 <= i < self.children@.len() ==> (#[trigger] self.children@[i]).ordered_within()
    }

    /// The item for the file at `path`. It is labelled with the file's name,
    /// and with `Unknown` where the name is no valid text.
    pub fn new(path: String, name: Option<String>, is_dir: bool) -> (item: TreeItem)
        ensures
            item.id_text() == path@,
            item.label_text() == match name {
                Some(name) => name@,
                None => "Unknown"@,
            },
            item.is_folder() == is_dir,
            item.items().len() == 0,
            item.ordered_within(),
    {
        let label = match name {
            Some(name) => name,
            None => "Unknown".to_owned(),
        };
        TreeItem { id: path, label, is_dir, children: Vec::new() }
    }

    /// The item with `children` as the items inside it, put in order:
    /// directories first, then files, each group by label, and items of one
    /// rank as they came. Children that come in order stay as they are.
    pub fn children(self, children: Vec<TreeItem>) -> (item: TreeItem)
        ensures
            item.id_text() == self.id_text(),
            item.label_text() == self.label_text(),
            item.is_folder() == self.is_folder(),
            holds_in_order(item.items(), children@),
            item.ordered_within(),
    {
        let arranged = arrange(children);
        let mut i: usize = 0;
        while i < arranged.len()
            invariant
                i <= arranged.len(),
                forall|k: int| 0 <= k < i ==> (#[trigger] arranged@[k]).ordered_within(),
            decreases arranged.len() - i,
        {
            let child = &arranged[i];
            proof {
                use_type_invariant(child);
            }
            i += 1;
        }
        proof {
            if is_ordered(children@) {
                lemma_arrangement_unique(children@, arranged@);
            }
        }
        TreeItem { id: self.id, label: self.label, is_dir: self.is_dir, children: arranged }
    }

    pub fn id(&self) -> (id: &String)
        ensures
            id@ == self.id_text(),
    {
        &self.id
    }

    pub fn label(&self) -> (label: &String)
        ensures
            label@ == self.label_text(),
    {
        &self.label
    }

    pub fn is_directory(&self) -> (is_dir: bool)
        ensures
            is_dir == self.is_folder(),
    {
        self.is_dir
    }

    /// The items inside, which are in order at every level.
    pub fn child_items(&self) -> (children: &Vec<TreeItem>)
        ensures
            children@ == self.items(),
            ordered_throughout(children@),
    {
        proof {
            use_type_invariant(self);
        }
        &self.children
    }
}

impl Listed for TreeItem {
    open spec fn leads(&self) -> bool {
        self.is_folder()
    }

    open spec fn title(&self) -> Seq<char> {
        self.label_text()
    }

    fn is_leading(&self) -> (leading: bool) {
        self.is_dir
    }

    fn title_text(&self) -> (title: &str) {
        self.label.as_str()
    }
}

/// The items of one directory as the tree shows them: directories first,
/// then files, each group by label. Items with the same label keep their
/// order.
pub fn build_file_items(items: Vec<TreeItem>) -> (ordered: Vec<TreeItem>)
    ensures
        is_ordered(ordered@),
        keeps_ties(items@, ordered@),
        ordered@.to_multiset() == items@.to_multiset(),
{
    arrange(items)
}

/// The items are in order at every level: they themselves, and the items
/// inside each of them.
pub open spec fn ordered_throughout(items: Seq<TreeItem>) -> bool {
    &&& is_ordered(items)
    &&& forall|i: int| 0 <= i < items.len() ==> (#[trigger] items[i]).ordered_within()
}

/// An item is in order within exactly when the items inside it are in order
/// at every level.
pub proof fn lemma_ordered_within(item: TreeItem)
    ensures
        item.ordered_within() == ordered_throughout(item.items()),
{
}

/// A child that the tree shows, with the items built for what is inside it.
#[derive(Debug)]
pub struct KeptChild {
    pub child: FoundChild,
    /// The items of the level below; read only for a directory.
    pub children: Vec<TreeItem>,
}

/// `item` is the item of `kept`: told apart by the child's path, labelled
/// with its name, or with `Unknown` where the name is no valid text, a
/// directory where the child is one, and holding the items of the level below
/// in order where it is a directory, and none where it is a file.
pub open spec fn stands_for(item: TreeItem, kept: KeptChild) -> bool {
    &&& item.id_text() == kept.child.path@
    &&& item.label_text() == match kept.child.name {
        Some(name) => name@,
        None => "Unknown"@,
    }
    &&& item.is_folder() == kept.child.is_dir
    &&& if kept.child.is_dir {
        holds_in_order(item.items(), kept.children@)
    } else {
        item.items() == Seq::<TreeItem>::empty()
    }
}

/// `items` holds the item of each of `kept`, in the same order.
pub open spec fn made_from(items: Seq<TreeItem>, kept: Seq<KeptChild>) -> bool {
    &&& items.len() == kept.len()
    &&& forall|i: int| 0 <= i < kept.len() ==> stands_for(#[trigger] items[i], kept[i])
}

/// The item of one child.
fn item_of(kept: KeptChild) -> (item: TreeItem)
    ensures
        stands_for(item, kept),
        item.ordered_within(),
{
    let item = TreeItem::new(kept.child.path, kept.child.name, kept.child.is_dir);
    if kept.child.is_dir {
        item.children(kept.children)
    } else {
        assert(item.items() =~= Seq::<TreeItem>::empty());
        item
    }
}

/// The items of one level of the tree, from the children that the tree
/// shows there and the items built for what is inside them: one item for
/// each child, directories first, then files, each group by label. The
/// whole is in order at every level.
pub fn level_items(kept: Vec<KeptChild>) -> (items: Vec<TreeItem>)
    ensures
        exists|made: Seq<TreeItem>|
            {
                &&& #[trigger] made_from(made, kept@)
                &&& keeps_ties(made, items@)
                &&& items@.to_multiset() == made.to_multiset()
            },
        ordered_throughout(items@),
{
    let mut made: Vec<TreeItem> = Vec::new();
    for one in it: kept
        invariant
            it.seq() == kept@,
            made_from(made@, kept@.take(it.index())),
            forall|i: int| 0 <= i < made@.len() ==> (#[trigger] made@[i]).ordered_within(),
    {
        let ghost before = made@;
        made.push(item_of(one));
        assert(kept@.take(it.index() + 1) =~= kept@.take(it.index()).push(one));
        assert forall|i: int| 0 <= i < it.index() + 1 implies stands_for(
            #[trigger] made@[i],
            kept@.take(it.index() + 1)[i],
        ) by {
            if i < it.index() {
                assert(stands_for(before[i], kept@.take(it.index())[i]));
            }
        }
    }
    assert(kept@.take(kept@.len() as int) =~= kept@);
    let ghost unordered = made@;
    let items = build_file_items(made);
    proof {
        assert(made_from(unordered, kept@));
        assert forall|j: int| 0 <= j < items@.len() implies (#[trigger] items@[j])
            .ordered_within() by {
            to_multiset_contains(items@, items@[j]);
            to_multiset_contains(unordered, items@[j]);
            assert(items@.contains(items@[j]));
        }
    }
    items
}

/// The state of the tree panel.
#[derive(Debug)]
pub struct FileTree {
    root: String,
    items: Vec<TreeItem>,
    selected_item: Option<TreeItem>,
}

/// What the tree panel holds.
pub struct TreeView {
    /// The directory whose files the tree shows.
    pub root: Seq<char>,
    /// The items at the top of the tree.
    pub items: Seq<TreeItem>,
    /// The item that is selected, if any.
    pub selected_item: Option<TreeItem>,
}

impl View for FileTree {
    type V = TreeView;

    closed spec fn view(&self) -> TreeView {
        TreeView { root: self.root@, items: self.items@, selected_item: self.selected_item }
    }
}

impl FileTree {
    /// The tree of the working directory, before its files are loaded.
    pub fn view() -> (tree: FileTree)
        ensures
            tree@ == (TreeView { root: "./"@, items: Seq::empty(), selected_item: None }),
    {
        FileTree { root: "./".to_owned(), items: Vec::new(), selected_item: None }
    }

    /// Turns the tree to the directory at `path`. Its files are still to be
    /// loaded; until then the tree shows what it showed.
    pub fn set_root_path(&mut self, path: String)
        ensures
            final(self)@ == (TreeView { root: path@, ..old(self)@ }),
    {
        self.root = path;
    }

    /// Shows `items`, the loaded files of the root directory.
    pub fn set_items(&mut self, items: Vec<TreeItem>)
        ensures
            final(self)@ == (TreeView { items: items@, ..old(self)@ }),
    {
        self.items = items;
    }

    /// Selects `item`.
    pub fn select_item(&mut self, item: TreeItem)
        ensures
            final(self)@ == (TreeView { selected_item: Some(item), ..old(self)@ }),
    {
        self.selected_item = Some(item);
    }

    /// The path of the selected item, if any.
    pub fn selected_path(&self) -> (path: Option<String>)
        ensures
            text_of(path) == match self@.selected_item {
                Some(item) => Some(item.id_text()),
                None => None,
            },
    {
        match &self.selected_item {
            Some(item) => Some(item.id.clone()),
            None => None,
        }
    }

    pub fn root(&self) -> (root: &String)
        ensures
            root@ == self@.root,
    {
        &self.root
    }

    pub fn items(&self) -> (items: &Vec<TreeItem>)
        ensures
            items@ == self@.items,
    {
        &self.items
    }

    pub fn selected_item(&self) -> (item: Option<&TreeItem>)
        ensures
            match self@.selected_item {
                Some(selected) => item == Some(&selected),
                None => item is None,
            },
    {
        self.selected_item.as_ref()
    }
}

} // verus!
