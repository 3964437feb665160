//! Key commands and the transitions of the event loop.
use vstd::prelude::*;
use crate::nav::{moved_down, moved_up, selected_path, NavigationState};
use crate::path::{parent_of, path_text, DirPath};

verus! {

/// A request from the user.
#[derive(Clone, Copy, Debug, PartialEq, Eq, Structural)]
pub enum Command {
    Quit,
    Down,
    Up,
    Ascend,
    Descend,
}

/// The default key bindings: `q` quits, `j` and `k` move the cursor down
/// and up, `h` goes to the parent and `l` enters the selected directory.
/// Any other key is ignored.
pub fn command_for_key(c: char) -> (r: Option<Command>)
    ensures
        r == (if c == 'q' {
            Some(Command::Quit)
        } else if c == 'j' {
            Some(Command::Down)
        } else if c == 'k' {
            Some(Command::Up)
        } else if c == 'h' {
            Some(Command::Ascend)
        } else if c == 'l' {
            Some(Command::Descend)
        } else {
            None
        }),
{
    if c == 'q' {
        Some(Command::Quit)
    } else if c == 'j' {
        Some(Command::Down)
    } else if c == 'k' {
        Some(Command::Up)
    } else if c == 'h' {
        Some(Command::Ascend)
    } else if c == 'l' {
        Some(Command::Descend)
    } else {
        None
    }
}

/// What the event loop does after a command.
#[derive(Debug)]
pub enum Action {
    /// Draw again and wait for the next key.
    Stay,
    /// Read this directory and hand the result to `descend`.
    Descend(DirPath),
    /// Read this directory and hand the result to `ascend`.
    Ascend(DirPath),
    /// Hand this path to the shell and stop.
    Exit(String),
}

impl NavigationState {
    /// Applies a command. Cursor moves take effect at once; entering or
    /// leaving a directory asks for that directory to be read, unless there
    /// is no subdirectory or the state is at the root; quitting yields the
    /// committed path.
    pub fn apply(&mut self, cmd: Command) -> (r: Action)
        requires
            old(self).wf(),
        ensures
            final(self).wf(),
            cmd == Command::Down ==> final(self)@ == moved_down(old(self)@) && r is Stay,
            cmd == Command::Up ==> final(self)@ == moved_up(old(self)@) && r is Stay,
            cmd != Command::Down && cmd != Command::Up ==> *final(self) == *old(self),
            cmd == Command::Descend ==> match r {
                Action::Stay => old(self)@.snap.dirs.len() == 0,
                Action::Descend(p) => old(self)@.snap.dirs.len() > 0 && p@ == selected_path(
                    old(self)@,
                ),
                _ => false,
            },
            cmd == Command::Ascend ==> match r {
                Action::Stay => old(self)@.snap.path.len() == 0,
                Action::Ascend(p) => old(self)@.snap.path.len() > 0 && p@ == parent_of(
                    old(self)@.snap.path,
                ),
                _ => false,
            },
            cmd == Command::Quit ==> match r {
                Action::Exit(s) => s@ == path_text(old(self)@.snap.path),
                _ => false,
            },
    {
        match cmd {
            Command::Down => {
                self.move_selection_down();
                Action::Stay
            },
            Command::Up => {
                self.move_selection_up();
                Action::Stay
            },
            Command::Descend => match self.descend_target() {
                Some(p) => Action::Descend(p),
                None => Action::Stay,
            },
            Command::Ascend => match self.ascend_target() {
                Some(p) => Action::Ascend(p),
                None => Action::Stay,
            },
            Command::Quit => Action::Exit(self.commit()),
        }
    }
}

} // verus!
