//! Immutable listings of one directory's children.
use vstd::prelude::*;
use crate::path::{is_component, is_component_name, DirPath};

verus! {

/// What the filesystem reported a child to be.
#[derive(Clone, Copy, Debug, PartialEq, Eq, Structural)]
pub enum EntryKind {
    Directory,
    File,
    /// Neither a directory nor a regular file (a dangling link, a socket);
    /// listed among the files, since it cannot be entered.
    Other,
}

/// One child as a directory read returned it. `name` is `None` where the
/// child's final component could not be had as text.
#[derive(Clone, Debug)]
pub struct ListedEntry {
    pub name: Option<String>,
    pub kind: EntryKind,
}

/// Whether a listed child has a usable display name.
pub open spec fn has_valid_name(e: ListedEntry) -> bool {
    e.name matches Some(n) && is_component(n@)
}

/// The display name of a listed child with a valid name.
pub open spec fn name_of(e: ListedEntry) -> Seq<char>
    recommends
        has_valid_name(e),
{
    e.name->Some_0@
}

/// The names of the listed children that have a valid name and are
/// directories (`dirs`) or are not (`!dirs`), in the order of the listing.
pub open spec fn names_of_kind(listing: Seq<ListedEntry>, dirs: bool) -> Seq<Seq<char>>
    decreases listing.len(),
{
    if listing.len() == 0 {
        Seq::empty()
    } else {
        let prev = names_of_kind(listing.drop_last(), dirs);
        let e = listing.last();
        if (e.kind == EntryKind::Directory) == dirs && has_valid_name(e) {
            prev.push(name_of(e))
        } else {
            prev
        }
    }
}

/// The number of listed children that have a valid name.
pub open spec fn named_count(listing: Seq<ListedEntry>) -> nat
    decreases listing.len(),
{
    if listing.len() == 0 {
        0
    } else {
        named_count(listing.drop_last()) + if has_valid_name(listing.last()) {
            1nat
        } else {
            0nat
        }
    }
}

/// Subdirectories and files together account for every listed child with a
/// valid name, each once: a child with a valid name is either a directory or
/// not.
pub proof fn lemma_listing_accounted(listing: Seq<ListedEntry>)
    ensures
        names_of_kind(listing, true).len() + names_of_kind(listing, false).len() == named_count(
            listing,
        ),
    decreases listing.len(),
{
    if listing.len() > 0 {
        lemma_listing_accounted(listing.drop_last());
    }
}

/// A subdirectory: its absolute path and its display name.
#[derive(Clone, Debug)]
pub struct DirEntry {
    pub path: DirPath,
    pub name: String,
}

/// What a snapshot holds: the listed directory's path, the names of its
/// subdirectories and the names of its files.
pub struct SnapshotModel {
    pub path: Seq<Seq<char>>,
    pub dirs: Seq<Seq<char>>,
    pub files: Seq<Seq<char>>,
}

/// The children of one directory, read at one moment.
#[derive(Clone, Debug)]
pub struct DirectorySnapshot {
    path: DirPath,
    dirs: Vec<DirEntry>,
    files: Vec<String>,
}

impl View for DirectorySnapshot {
    type V = SnapshotModel;

    closed spec fn view(&self) -> SnapshotModel {
        SnapshotModel {
            path: self.path@,
            dirs: self.dirs@.map_values(|d: DirEntry| d.name@),
            files: self.files@.map_values(|f: String| f@),
        }
    }
}

/// The snapshot that a listing of `path` gives.
pub open spec fn snapshot_of(path: Seq<Seq<char>>, listing: Seq<ListedEntry>) -> SnapshotModel {
    SnapshotModel {
        path,
        dirs: names_of_kind(listing, true),
        files: names_of_kind(listing, false),
    }
}

impl DirectorySnapshot {
    /// The path is valid and each subdirectory's path is the listed
    /// directory's path followed by its valid name.
    pub closed spec fn wf(&self) -> bool {
        &&& self.path.wf()
        &&& forall|i: int|
            0 <= i < self.dirs@.len() ==> {
                &&& is_component(#[trigger] self.dirs@[i].name@)
                &&& self.dirs@[i].path@ == self.path@.push(self.dirs@[i].name@)
                &&& self.dirs@[i].path.wf()
            }
    }

    /// Builds the snapshot of `path` from the children that one read of it
    /// returned: every child with a valid name is listed once, among the
    /// subdirectories if it is a directory and among the files otherwise,
    /// in the order of the read; children without a valid name are left out.
    pub fn from_listing(path: DirPath, listing: &Vec<ListedEntry>) -> (r: DirectorySnapshot)
        requires
            path.wf(),
        ensures
            r.wf(),
            r@ == snapshot_of(path@, listing@),
    {
        let mut dirs: Vec<DirEntry> = Vec::new();
        let mut files: Vec<String> = Vec::new();
        let mut i: usize = 0;
        while i < listing.len()
            invariant
                path.wf(),
                i <= listing.len(),
                dirs@.map_values(|d: DirEntry| d.name@) == names_of_kind(
                    listing@.subrange(0, i as int),
                    true,
                ),
                files@.map_values(|f: String| f@) == names_of_kind(
                    listing@.subrange(0, i as int),
                    false,
                ),
                forall|k: int|
                    0 <= k < dirs@.len() ==> {
                        &&& is_component(#[trigger] dirs@[k].name@)
                        &&& dirs@[k].path@ == path@.push(dirs@[k].name@)
                    },
                forall|k: int| 0 <= k < dirs@.len() ==> (#[trigger] dirs@[k]).path.wf(),
            decreases listing.len() - i,
        {
            let e = &listing[i];
            let ghost pre = listing@.subrange(0, i as int);
            let ghost old_dirs = dirs@;
            let ghost old_files = files@;
            proof {
                assert(listing@.subrange(0, i + 1).drop_last() =~= pre);
                assert(listing@.subrange(0, i + 1).last() == *e);
            }
            match &e.name {
                Some(name) => {
                    if is_component_name(name) {
                        match e.kind {
                            EntryKind::Directory => {
                                let child = path.join(name);
                                dirs.push(DirEntry { path: child, name: name.clone() });
                                assert(dirs@.map_values(|d: DirEntry| d.name@) =~= old_dirs.map_values(
                                    |d: DirEntry| d.name@,
                                ).push(name@));
                            },
                            _ => {
                                files.push(name.clone());
                                assert(files@.map_values(|f: String| f@) =~= old_files.map_values(
                                    |f: String| f@,
                                ).push(name@));
                            },
                        }
                    }
                },
                None => {},
            }
            i = i + 1;
        }
        assert(listing@.subrange(0, listing@.len() as int) =~= listing@);
        DirectorySnapshot { path, dirs, files }
    }

    /// The listed directory's path.
    pub fn path(&self) -> (r: &DirPath)
        ensures
            r@ == self@.path,
            self.wf() ==> r.wf(),
    {
        &self.path
    }

    /// The subdirectories, in listing order.
    pub fn subdirectories(&self) -> (r: &Vec<DirEntry>)
        ensures
            r@.len() == self@.dirs.len(),
            forall|i: int| 0 <= i < r@.len() ==> #[trigger] r@[i].name@ == self@.dirs[i],
            self.wf() ==> forall|i: int|
                0 <= i < r@.len() ==> #[trigger] r@[i].path@ == self@.path.push(self@.dirs[i])
                    && r@[i].path.wf(),
    {
        &self.dirs
    }

    /// The names of the files, in listing order.
    pub fn files(&self) -> (r: &Vec<String>)
        ensures
            r@.len() == self@.files.len(),
            forall|i: int| 0 <= i < r@.len() ==> #[trigger] r@[i]@ == self@.files[i],
    {
        &self.files
    }
}

} // verus!
