//! Terminal text for a frame of draw instructions, with the escape
//! sequences of termion.
use vstd::prelude::*;
use crate::render::{DrawLine, LineModel, LineStyle};

verus! {

/// The decimal digits of `n`, most significant first, without leading zeros.
pub open spec fn decimal(n: nat) -> Seq<char>
    decreases n,
{
    let digits = seq!['0', '1', '2', '3', '4', '5', '6', '7', '8', '9'];
    if n < 10 {
        seq![digits[n as int]]
    } else {
        decimal(n / 10).push(digits[(n % 10) as int])
    }
}

/// A control sequence: ESC `[` followed by `body`.
pub open spec fn csi(body: Seq<char>) -> Seq<char> {
    seq!['\x1b', '['] + body
}

/// The sequence that moves the cursor to column `col` and row `row`.
pub open spec fn goto_seq(col: u16, row: u16) -> Seq<char> {
    csi(decimal(row as nat) + seq![';'] + decimal(col as nat) + seq!['H'])
}

/// The sequence that selects one of the sixteen palette colors, `4`
/// for the foreground and `8` for the background.
pub open spec fn palette_seq(layer: char, value: char) -> Seq<char> {
    csi(seq![layer, '8', ';', '5', ';', value, 'm'])
}

/// The sequence that selects a true-color background.
pub open spec fn rgb_bg_seq(r: u8, g: u8, b: u8) -> Seq<char> {
    csi(seq!['4', '8', ';', '2', ';'] + decimal(r as nat) + seq![';'] + decimal(g as nat) + seq![';']
        + decimal(b as nat) + seq!['m'])
}

/// Relies on termion's `From<Goto> for String`: ESC `[`, the row and the
/// column in decimal, separated by `;`, then `H`.
#[verifier::external_body]
fn goto_text(col: u16, row: u16) -> (r: String)
    ensures
        r@ == goto_seq(col, row),
{
    String::from(termion::cursor::Goto(col, row))
}

/// Relies on termion's `clear::All` as a string: ESC `[2J`.
#[verifier::external_body]
fn clear_all_text() -> (r: String)
    ensures
        r@ == csi(seq!['2', 'J']),
{
    <termion::clear::All as AsRef<str>>::as_ref(&termion::clear::All).to_string()
}

/// Relies on termion's `color::Blue::fg_str`: ESC `[38;5;4m`.
#[verifier::external_body]
fn fg_blue_text() -> (r: String)
    ensures
        r@ == palette_seq('3', '4'),
{
    termion::color::Blue.fg_str().to_string()
}

/// Relies on termion's `color::Green::fg_str`: ESC `[38;5;2m`.
#[verifier::external_body]
fn fg_green_text() -> (r: String)
    ensures
        r@ == palette_seq('3', '2'),
{
    termion::color::Green.fg_str().to_string()
}

/// Relies on termion's `color::Red::fg_str`: ESC `[38;5;1m`.
#[verifier::external_body]
fn fg_red_text() -> (r: String)
    ensures
        r@ == palette_seq('3', '1'),
{
    termion::color::Red.fg_str().to_string()
}

/// Relies on termion's `color::Green::bg_str`: ESC `[48;5;2m`.
#[verifier::external_body]
fn bg_green_text() -> (r: String)
    ensures
        r@ == palette_seq('4', '2'),
{
    termion::color::Green.bg_str().to_string()
}

/// Relies on termion's `color::Rgb::bg_string`: ESC `[48;2;`, the three
/// components in decimal separated by `;`, then `m`.
#[verifier::external_body]
fn bg_rgb_text(r: u8, g: u8, b: u8) -> (s: String)
    ensures
        s@ == rgb_bg_seq(r, g, b),
{
    termion::color::Rgb(r, g, b).bg_string()
}

/// Relies on termion's `color::Reset::fg_str`: ESC `[39m`.
#[verifier::external_body]
fn fg_reset_text() -> (r: String)
    ensures
        r@ == csi(seq!['3', '9', 'm']),
{
    termion::color::Reset.fg_str().to_string()
}

/// Relies on termion's `color::Reset::bg_str`: ESC `[49m`.
#[verifier::external_body]
fn bg_reset_text() -> (r: String)
    ensures
        r@ == csi(seq!['4', '9', 'm']),
{
    termion::color::Reset.bg_str().to_string()
}

/// The highlight behind the selected subdirectory: orange.
pub open spec fn highlight_seq() -> Seq<char> {
    rgb_bg_seq(255, 153, 0)
}

/// What precedes a line's text: its colors, where colors are on.
pub open spec fn style_prefix(style: LineStyle, colored: bool) -> Seq<char> {
    if !colored {
        Seq::empty()
    } else {
        match style {
            LineStyle::Selected => palette_seq('3', '4') + highlight_seq(),
            LineStyle::Directory => palette_seq('3', '4'),
            LineStyle::File => palette_seq('3', '2'),
            LineStyle::Status => palette_seq('3', '1') + palette_seq('4', '2'),
        }
    }
}

/// What follows a line's text: the background reset after a highlight and
/// both resets after the status line, where colors are on.
pub open spec fn style_suffix(style: LineStyle, colored: bool) -> Seq<char> {
    if !colored {
        Seq::empty()
    } else {
        match style {
            LineStyle::Selected => csi(seq!['4', '9', 'm']),
            LineStyle::Status => csi(seq!['3', '9', 'm']) + csi(seq!['4', '9', 'm']),
            _ => Seq::empty(),
        }
    }
}

/// A row as a terminal coordinate; rows past the last one stay on it.
pub open spec fn screen_row(row: int) -> u16 {
    if row > 65535 {
        65535u16
    } else {
        row as u16
    }
}

/// The text of one line: the cursor moved to its row, then its styled text.
pub open spec fn line_seq(l: LineModel, colored: bool) -> Seq<char> {
    goto_seq(1, screen_row(l.row)) + style_prefix(l.style, colored) + l.text + style_suffix(
        l.style,
        colored,
    )
}

/// The text of the lines, in order.
pub open spec fn lines_seq(ls: Seq<LineModel>, colored: bool) -> Seq<char>
    decreases ls.len(),
{
    if ls.len() == 0 {
        Seq::empty()
    } else {
        lines_seq(ls.drop_last(), colored) + line_seq(ls.last(), colored)
    }
}

/// A whole frame: the screen cleared, the cursor home, the lines, and the
/// colors reset at the end where colors are on.
pub open spec fn frame_seq(ls: Seq<LineModel>, colored: bool) -> Seq<char> {
    csi(seq!['2', 'J']) + goto_seq(1, 1) + lines_seq(ls, colored) + (if colored {
        csi(seq!['3', '9', 'm']) + csi(seq!['4', '9', 'm'])
    } else {
        Seq::empty()
    })
}

fn style_prefix_text(style: LineStyle, colored: bool) -> (r: String)
    ensures
        r@ == style_prefix(style, colored),
{
    let mut s = String::new();
    if colored {
        match style {
            LineStyle::Selected => {
                s.append(fg_blue_text().as_str());
                s.append(bg_rgb_text(255, 153, 0).as_str());
            },
            LineStyle::Directory => s.append(fg_blue_text().as_str()),
            LineStyle::File => s.append(fg_green_text().as_str()),
            LineStyle::Status => {
                s.append(fg_red_text().as_str());
                s.append(bg_green_text().as_str());
            },
        }
    }
    s
}

fn style_suffix_text(style: LineStyle, colored: bool) -> (r: String)
    ensures
        r@ == style_suffix(style, colored),
{
    let mut s = String::new();
    if colored {
        match style {
            LineStyle::Selected => s.append(bg_reset_text().as_str()),
            LineStyle::Status => {
                s.append(fg_reset_text().as_str());
                s.append(bg_reset_text().as_str());
            },
            _ => {},
        }
    }
    s
}

/// The terminal text that draws `lines` over a cleared screen, with colors
/// or without.
pub fn frame_text(lines: &Vec<DrawLine>, colored: bool) -> (r: String)
    ensures
        r@ == frame_seq(lines@.map_values(|l: DrawLine| l@), colored),
{
    let ghost ls = lines@.map_values(|l: DrawLine| l@);
    let mut s = clear_all_text();
    s.append(goto_text(1, 1).as_str());
    let ghost head = s@;
    let mut i: usize = 0;
    while i < lines.len()
        invariant
            ls == lines@.map_values(|l: DrawLine| l@),
            i <= lines.len(),
            head == csi(seq!['2', 'J']) + goto_seq(1, 1),
            s@ == head + lines_seq(ls.subrange(0, i as int), colored),
        decreases lines.len() - i,
    {
        let line = &lines[i];
        let row: u16 = if line.row > 65535 {
            65535
        } else {
            line.row as u16
        };
        let ghost before = s@;
        s.append(goto_text(1, row).as_str());
        s.append(style_prefix_text(line.style, colored).as_str());
        s.append(line.text.as_str());
        s.append(style_suffix_text(line.style, colored).as_str());
        proof {
            assert(ls.subrange(0, i + 1).drop_last() =~= ls.subrange(0, i as int));
            assert(ls.subrange(0, i + 1).last() == line@);
            assert(s@ =~= before + line_seq(line@, colored));
        }
        i = i + 1;
    }
    if colored {
        s.append(fg_reset_text().as_str());
        s.append(bg_reset_text().as_str());
    }
    proof {
        assert(ls.subrange(0, ls.len() as int) =~= ls);
    }
    assert(s@ =~= frame_seq(ls, colored));
    s
}

} // verus!
