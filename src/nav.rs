//! The navigation state: the current snapshot and the selection cursor.
use vstd::prelude::*;
use crate::path::{parent_of, path_text, DirPath};
use crate::snapshot::{snapshot_of, DirectorySnapshot, ListedEntry, SnapshotModel};

verus! {

/// Why a directory could not be entered.
#[derive(Clone, Copy, Debug, PartialEq, Eq, Structural)]
pub enum NavError {
    /// The directory could not be read (permission denied, an I/O error).
    UnreadableDirectory,
}

/// What a navigation state holds: a snapshot and the selected index.
pub struct NavModel {
    pub snap: SnapshotModel,
    pub selected: int,
}

/// The selected index references a subdirectory, or is zero where there is
/// none.
pub open spec fn selection_ok(m: NavModel) -> bool {
    if m.snap.dirs.len() == 0 {
        m.selected == 0
    } else {
        0 <= m.selected < m.snap.dirs.len()
    }
}

/// The model after one step of the cursor down: it stops at the last
/// subdirectory.
pub open spec fn moved_down(m: NavModel) -> NavModel {
    if m.snap.dirs.len() > 0 && m.selected < m.snap.dirs.len() - 1 {
        NavModel { selected: m.selected + 1, ..m }
    } else {
        m
    }
}

/// The model after one step of the cursor up: it stops at zero.
pub open spec fn moved_up(m: NavModel) -> NavModel {
    if m.selected > 0 {
        NavModel { selected: m.selected - 1, ..m }
    } else {
        m
    }
}

/// The cursor moves of a sequence applied in turn: `true` moves down,
/// `false` moves up.
pub open spec fn after_moves(m: NavModel, moves: Seq<bool>) -> NavModel
    decreases moves.len(),
{
    if moves.len() == 0 {
        m
    } else {
        let prev = after_moves(m, moves.drop_last());
        if moves.last() {
            moved_down(prev)
        } else {
            moved_up(prev)
        }
    }
}

/// The path of the selected subdirectory.
pub open spec fn selected_path(m: NavModel) -> Seq<Seq<char>> {
    m.snap.path.push(m.snap.dirs[m.selected])
}

/// The model after entering the selected subdirectory, whose read gave
/// `listing`.
pub open spec fn descended(m: NavModel, listing: Seq<ListedEntry>) -> NavModel {
    NavModel { snap: snapshot_of(selected_path(m), listing), selected: 0 }
}

/// The model after going up to the parent, whose read gave `listing`; at
/// the root nothing changes.
pub open spec fn ascended(m: NavModel, listing: Seq<ListedEntry>) -> NavModel {
    if m.snap.path.len() == 0 {
        m
    } else {
        NavModel { snap: snapshot_of(parent_of(m.snap.path), listing), selected: 0 }
    }
}

/// Whatever sequence of cursor moves is applied to a state whose selection
/// is in range, the selection stays in range.
pub proof fn lemma_moves_keep_selection(m: NavModel, moves: Seq<bool>)
    requires
        selection_ok(m),
    ensures
        selection_ok(after_moves(m, moves)),
        after_moves(m, moves).snap == m.snap,
    decreases moves.len(),
{
    if moves.len() > 0 {
        lemma_moves_keep_selection(m, moves.drop_last());
    }
}

/// The cursor never wraps: a move down never lowers the index and stops at
/// the last subdirectory, a move up never raises it and stops at zero, and
/// each changes it by at most one.
pub proof fn lemma_cursor_never_wraps(m: NavModel)
    requires
        selection_ok(m),
    ensures
        m.selected <= moved_down(m).selected <= m.selected + 1,
        m.snap.dirs.len() > 0 && m.selected == m.snap.dirs.len() - 1 ==> moved_down(m) == m,
        m.selected - 1 <= moved_up(m).selected <= m.selected,
        m.selected == 0 ==> moved_up(m) == m,
{
}

/// Entering a subdirectory and then going up again comes back to the
/// directory one started from, with the cursor at zero; where the second
/// read lists what the first snapshot held, the snapshot is the same too.
pub proof fn lemma_descend_then_ascend(m: NavModel, below: Seq<ListedEntry>, above: Seq<ListedEntry>)
    requires
        selection_ok(m),
        m.snap.dirs.len() > 0,
    ensures
        ascended(descended(m, below), above).snap.path == m.snap.path,
        ascended(descended(m, below), above).selected == 0,
        m.snap == snapshot_of(m.snap.path, above) ==> ascended(descended(m, below), above) == (
        NavModel { snap: m.snap, selected: 0 }),
{
    assert(selected_path(m).drop_last() =~= m.snap.path);
}

/// Going up at the root changes nothing, whatever the read returned.
pub proof fn lemma_ascend_at_root(m: NavModel, listing: Seq<ListedEntry>)
    requires
        m.snap.path.len() == 0,
    ensures
        ascended(m, listing) == m,
        ascended(m, listing).snap.path == Seq::<Seq<char>>::empty(),
{
}

/// The one live browsing state: a snapshot and the selected subdirectory.
#[derive(Clone, Debug)]
pub struct NavigationState {
    snapshot: DirectorySnapshot,
    selected: usize,
}

impl View for NavigationState {
    type V = NavModel;

    closed spec fn view(&self) -> NavModel {
        NavModel { snap: self.snapshot@, selected: self.selected as int }
    }
}

impl NavigationState {
    /// The snapshot is well formed and the selection is in range.
    pub closed spec fn wf(&self) -> bool {
        &&& self.snapshot.wf()
        &&& selection_ok(self@)
    }

    /// A state on `snapshot` with the first subdirectory selected.
    pub fn new(snapshot: DirectorySnapshot) -> (r: NavigationState)
        requires
            snapshot.wf(),
        ensures
            r.wf(),
            r@ == (NavModel { snap: snapshot@, selected: 0 }),
    {
        NavigationState { snapshot, selected: 0 }
    }

    /// The current snapshot.
    pub fn snapshot(&self) -> (r: &DirectorySnapshot)
        ensures
            r@ == self@.snap,
            self.wf() ==> r.wf(),
    {
        &self.snapshot
    }

    /// The selected index; it references a subdirectory only where there
    /// is one.
    pub fn selected_index(&self) -> (r: usize)
        ensures
            r == self@.selected,
    {
        self.selected
    }

    /// Moves the cursor one subdirectory down, unless it is on the last.
    pub fn move_selection_down(&mut self)
        requires
            old(self).wf(),
        ensures
            final(self).wf(),
            final(self)@ == moved_down(old(self)@),
    {
        let n = self.snapshot.subdirectories().len();
        if n > 0 && self.selected < n - 1 {
            self.selected = self.selected + 1;
        }
    }

    /// Moves the cursor one subdirectory up, unless it is on the first.
    pub fn move_selection_up(&mut self)
        requires
            old(self).wf(),
        ensures
            final(self).wf(),
            final(self)@ == moved_up(old(self)@),
    {
        if self.selected > 0 {
            self.selected = self.selected - 1;
        }
    }

    /// The directory that `descend` reads: the selected subdirectory, or
    /// `None` where there is no subdirectory.
    pub fn descend_target(&self) -> (r: Option<DirPath>)
        requires
            self.wf(),
        ensures
            self@.snap.dirs.len() == 0 <==> r is None,
            r matches Some(p) ==> p@ == selected_path(self@) && p.wf(),
    {
        let dirs = self.snapshot.subdirectories();
        if dirs.len() == 0 {
            None
        } else {
            Some(dirs[self.selected].path.duplicate())
        }
    }

    /// The directory that `ascend` reads: the parent, or `None` at the root.
    pub fn ascend_target(&self) -> (r: Option<DirPath>)
        requires
            self.wf(),
        ensures
            self@.snap.path.len() == 0 <==> r is None,
            r matches Some(p) ==> p@ == parent_of(self@.snap.path) && p.wf(),
    {
        let path = self.snapshot.path();
        if path.is_root() {
            None
        } else {
            Some(path.parent())
        }
    }

    /// Enters the selected subdirectory, given what reading it returned.
    /// Without subdirectories nothing changes. Where the read failed nothing
    /// changes and its error is returned. Otherwise the snapshot of the
    /// subdirectory replaces the current one and the cursor goes to zero.
    pub fn descend(&mut self, listing: Result<Vec<ListedEntry>, NavError>) -> (r: Result<(), NavError>)
        requires
            old(self).wf(),
        ensures
            final(self).wf(),
            old(self)@.snap.dirs.len() == 0 ==> r is Ok && *final(self) == *old(self),
            old(self)@.snap.dirs.len() > 0 ==> match listing {
                Ok(l) => r is Ok && final(self)@ == descended(old(self)@, l@),
                Err(e) => r == Err::<(), NavError>(e) && *final(self) == *old(self),
            },
    {
        match self.descend_target() {
            None => Ok(()),
            Some(target) => match listing {
                Ok(l) => {
                    self.snapshot = DirectorySnapshot::from_listing(target, &l);
                    self.selected = 0;
                    Ok(())
                },
                Err(e) => Err(e),
            },
        }
    }

    /// Goes up to the parent directory, given what reading it returned. At
    /// the root nothing changes and no error comes, whatever the read gave.
    /// Where the read failed nothing changes and its error is returned.
    /// Otherwise the parent's snapshot replaces the current one and the
    /// cursor goes to zero.
    pub fn ascend(&mut self, listing: Result<Vec<ListedEntry>, NavError>) -> (r: Result<(), NavError>)
        requires
            old(self).wf(),
        ensures
            final(self).wf(),
            old(self)@.snap.path.len() == 0 ==> r is Ok && *final(self) == *old(self),
            old(self)@.snap.path.len() > 0 ==> match listing {
                Ok(l) => r is Ok && final(self)@ == ascended(old(self)@, l@),
                Err(e) => r == Err::<(), NavError>(e) && *final(self) == *old(self),
            },
    {
        match self.ascend_target() {
            None => Ok(()),
            Some(target) => match listing {
                Ok(l) => {
                    self.snapshot = DirectorySnapshot::from_listing(target, &l);
                    self.selected = 0;
                    Ok(())
                },
                Err(e) => Err(e),
            },
        }
    }

    /// The path to hand to the shell on exit, as text.
    pub fn commit(&self) -> (r: String)
        ensures
            r@ == path_text(self@.snap.path),
    {
        self.snapshot.path().to_text()
    }
}

} // verus!
