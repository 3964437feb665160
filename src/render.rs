//! The projection of a navigation state into lines to draw.
use vstd::prelude::*;
use crate::nav::{NavModel, NavigationState};
use crate::path::path_text;

verus! {

/// How a line is drawn.
#[derive(Clone, Copy, Debug, PartialEq, Eq, Structural)]
pub enum LineStyle {
    /// The subdirectory under the cursor, on a highlighted background.
    Selected,
    /// Any other subdirectory.
    Directory,
    /// A file.
    File,
    /// The status line with the current path.
    Status,
}

/// One line of text to draw at a one-based terminal row.
#[derive(Clone, Debug)]
pub struct DrawLine {
    pub row: usize,
    pub style: LineStyle,
    pub text: String,
}

/// What a draw instruction says.
pub struct LineModel {
    pub row: int,
    pub style: LineStyle,
    pub text: Seq<char>,
}

impl View for DrawLine {
    type V = LineModel;

    open spec fn view(&self) -> LineModel {
        LineModel { row: self.row as int, style: self.style, text: self.text@ }
    }
}

/// The row of the status line: the last row of a terminal of `height` rows.
pub open spec fn status_row(height: u16) -> int {
    if height == 0 {
        1
    } else {
        height as int
    }
}

/// The number of lines that a state is drawn with.
pub open spec fn line_count(m: NavModel) -> int {
    (m.snap.dirs.len() + m.snap.files.len() + 1) as int
}

/// The `i`-th line drawn for `m` on a terminal of `height` rows: the
/// subdirectories wrapped in separators, then the files, then the status
/// line with the path at the bottom.
pub open spec fn line_of(m: NavModel, height: u16, i: int) -> LineModel {
    let nd = m.snap.dirs.len() as int;
    let nf = m.snap.files.len() as int;
    if i < nd {
        LineModel {
            row: i + 1,
            style: if i == m.selected {
                LineStyle::Selected
            } else {
                LineStyle::Directory
            },
            text: seq!['/'] + m.snap.dirs[i] + seq!['/'],
        }
    } else if i < nd + nf {
        LineModel { row: i + 1, style: LineStyle::File, text: m.snap.files[i - nd] }
    } else {
        LineModel { row: status_row(height), style: LineStyle::Status, text: path_text(m.snap.path) }
    }
}

/// Draws `state` on a terminal of `height` rows, one line per subdirectory,
/// one per file and a status line. Nothing is read but the state.
pub fn render(state: &NavigationState, height: u16) -> (r: Vec<DrawLine>)
    requires
        state.wf(),
        line_count(state@) <= usize::MAX,
    ensures
        r@.len() == line_count(state@),
        forall|i: int| 0 <= i < r@.len() ==> #[trigger] r@[i]@ == line_of(state@, height, i),
{
    let snap = state.snapshot();
    let dirs = snap.subdirectories();
    let files = snap.files();
    let selected = state.selected_index();
    let ghost m = state@;
    let mut lines: Vec<DrawLine> = Vec::new();
    let mut i: usize = 0;
    while i < dirs.len()
        invariant
            m == state@,
            selected == m.selected,
            dirs@.len() == m.snap.dirs.len(),
            forall|k: int| 0 <= k < dirs@.len() ==> #[trigger] dirs@[k].name@ == m.snap.dirs[k],
            i <= dirs.len(),
            lines@.len() == i,
            forall|k: int| 0 <= k < i ==> #[trigger] lines@[k]@ == line_of(m, height, k),
        decreases dirs.len() - i,
    {
        proof {
            reveal_strlit("/");
        }
        let mut text = String::new();
        text.append("/");
        text.append(dirs[i].name.as_str());
        text.append("/");
        assert(text@ =~= seq!['/'] + m.snap.dirs[i as int] + seq!['/']);
        let style = if i == selected {
            LineStyle::Selected
        } else {
            LineStyle::Directory
        };
        lines.push(DrawLine { row: i + 1, style, text });
        assert(lines@[i as int]@ =~= line_of(m, height, i as int));
        i = i + 1;
    }
    let nd = dirs.len();
    let mut j: usize = 0;
    while j < files.len()
        invariant
            m == state@,
            nd == m.snap.dirs.len(),
            line_count(m) <= usize::MAX,
            files@.len() == m.snap.files.len(),
            forall|k: int| 0 <= k < files@.len() ==> #[trigger] files@[k]@ == m.snap.files[k],
            j <= files.len(),
            lines@.len() == nd + j,
            forall|k: int| 0 <= k < nd + j ==> #[trigger] lines@[k]@ == line_of(m, height, k),
        decreases files.len() - j,
    {
        lines.push(DrawLine { row: nd + j + 1, style: LineStyle::File, text: files[j].clone() });
        assert(lines@[nd + j]@ =~= line_of(m, height, nd + j));
        j = j + 1;
    }
    let row: usize = if height == 0 {
        1
    } else {
        height as usize
    };
    let ghost before = lines@.len();
    lines.push(DrawLine { row, style: LineStyle::Status, text: state.commit() });
    assert(lines@[before as int]@ =~= line_of(m, height, before as int));
    lines
}

/// A directory with neither subdirectories nor files is drawn as one status
/// line holding its path, and no other line.
pub proof fn lemma_render_empty(m: NavModel, height: u16)
    requires
        m.snap.dirs.len() == 0,
        m.snap.files.len() == 0,
    ensures
        line_count(m) == 1,
        line_of(m, height, 0) == (LineModel {
            row: status_row(height),
            style: LineStyle::Status,
            text: path_text(m.snap.path),
        }),
{
}

} // verus!
