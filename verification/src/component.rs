//! The panels of the browser and the directory entries they share.

use vstd::prelude::*;
use crate::listing::{arrange, is_ordered, keeps_ties, Listed};
use crate::paths::{file_name_of, final_name, is_part_of};

pub mod content_viewer;
pub mod file_list;
pub mod file_tree;
pub mod header;
pub mod left_dock;

verus! {

/// One child of a directory: its display name, whether it is a directory,
/// and where it lives.
#[derive(Debug)]
pub struct DirEntry {
    pub name: String,
    pub is_dir: bool,
    pub path: String,
}

/// What an entry holds, as plain values.
pub struct EntryView {
    pub name: Seq<char>,
    pub is_dir: bool,
    pub path: Seq<char>,
}

impl View for DirEntry {
    type V = EntryView;

    open spec fn view(&self) -> EntryView {
        EntryView { name: self.name@, is_dir: self.is_dir, path: self.path@ }
    }
}

impl Listed for DirEntry {
    open spec fn leads(&self) -> bool {
        self.is_dir
    }

    open spec fn title(&self) -> Seq<char> {
        self.name@
    }

    fn is_leading(&self) -> (leading: bool) {
        self.is_dir
    }

    fn title_text(&self) -> (title: &str) {
        self.name.as_str()
    }
}

impl Clone for DirEntry {
    fn clone(&self) -> (copy: Self)
        ensures
            copy == *self,
    {
        DirEntry { name: self.name.clone(), is_dir: self.is_dir, path: self.path.clone() }
    }
}

impl PartialEq for DirEntry {
    fn eq(&self, other: &Self) -> (same: bool) {
        self.name == other.name && self.is_dir == other.is_dir && self.path == other.path
    }
}

impl vstd::std_specs::cmp::PartialEqSpecImpl for DirEntry {
    open spec fn obeys_eq_spec() -> bool {
        true
    }

    open spec fn eq_spec(&self, other: &Self) -> bool {
        self@ == other@
    }
}

impl DirEntry {
    /// The entry for the file at `path` with `name` as the final component
    /// of the path; it has an empty name where the path has no such
    /// component.
    pub fn with_name(path: String, is_dir: bool, name: Option<String>) -> (entry: DirEntry)
        ensures
            entry@ == (EntryView {
                name: match name {
                    Some(name) => name@,
                    None => Seq::empty(),
                },
                is_dir,
                path: path@,
            }),
    {
        let name = match name {
            Some(name) => name,
            None => String::new(),
        };
        DirEntry { name, is_dir, path }
    }

    /// The entry for a path picked in the tree: it is named by the final
    /// component of the path, and has an empty name where the path has none.
    pub fn from_path(path: String, is_dir: bool) -> (entry: DirEntry)
        ensures
            entry@ == (EntryView { name: final_name(path@), is_dir, path: path@ }),
            is_part_of(final_name(path@), path@),
    {
        let name = file_name_of(path.as_str());
        proof {
            if name is None {
                assert(path@.subrange(0int, 0int + 0) =~= Seq::<char>::empty());
            }
        }
        DirEntry::with_name(path, is_dir, name)
    }
}

/// A copy of `entries`.
pub fn clone_entries(entries: &Vec<DirEntry>) -> (copy: Vec<DirEntry>)
    ensures
        copy@ == entries@,
{
    let mut copy: Vec<DirEntry> = Vec::new();
    let mut i: usize = 0;
    while i < entries.len()
        invariant
            i <= entries.len(),
            copy@ == entries@.take(i as int),
        decreases entries.len() - i,
    {
        copy.push(entries[i].clone());
        assert(entries@.take(i as int + 1) =~= entries@.take(i as int).push(entries@[i as int]));
        i += 1;
    }
    assert(entries@.take(entries@.len() as int) =~= entries@);
    copy
}

/// The listing of a directory from what a read of it found: directories
/// first, then files, each group by name. A directory that could not be read
/// lists as empty.
pub fn list_directory(read: Option<Vec<DirEntry>>) -> (entries: Vec<DirEntry>)
    ensures
        is_ordered(entries@),
        match read {
            Some(found) => {
                &&& keeps_ties(found@, entries@)
                &&& entries@.to_multiset() == found@.to_multiset()
            },
            None => entries@.len() == 0,
        },
{
    match read {
        Some(found) => arrange(found),
        None => Vec::new(),
    }
}

} // verus!
