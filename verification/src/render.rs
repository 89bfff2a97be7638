//! Frames: the text that draws one page on a cleared screen. A frame is a
//! sequence of write groups; whoever draws it writes each group and flushes
//! after it, so that no group is left half drawn.

use vstd::prelude::*;
use vstd::string::StringExecFns;
use crate::decimal::decimal;
use crate::decimal::decimal_string;
use crate::document::lines_view;
use crate::document::Document;
use crate::geometry::clamp_offset;
use crate::geometry::compute_geometry;
use crate::geometry::page_count;
use crate::geometry::page_end;
use crate::geometry::page_start;
use crate::geometry::MIN_HEIGHT;

verus! {

/// The sequence that clears the whole screen.
pub open spec fn clear_sequence() -> Seq<char> {
    seq!['\x1b', '[', '2', 'J']
}

/// The sequence that moves the cursor to a column and a row, both counted
/// from one.
pub open spec fn goto_sequence(column: nat, row: nat) -> Seq<char> {
    seq!['\x1b', '['] + decimal(row) + seq![';'] + decimal(column) + seq!['H']
}

/// The sequence that sets the foreground to yellow.
pub open spec fn yellow_sequence() -> Seq<char> {
    seq!['\x1b', '[', '3', '8', ';', '5', ';', '3', 'm']
}

/// The sequence that sets the foreground to white.
pub open spec fn white_sequence() -> Seq<char> {
    seq!['\x1b', '[', '3', '8', ';', '5', ';', '7', 'm']
}

/// What is shown where the terminal has fewer than three rows.
pub open spec fn too_small_message() -> Seq<char> {
    "Terminal height is too small to display the file, resize the terminal and press any button or press q to quit"@
}

/// The keys that the footer names.
pub open spec fn key_hint() -> Seq<char> {
    "Press j for next page, k for previous page or q to quit"@
}

/// The header: where the reader is in the document, in the accent colour.
pub open spec fn header(offset: nat, pages: nat, accent: Seq<char>, plain: Seq<char>) -> Seq<
    char,
> {
    goto_sequence(1, 1) + accent + "Page "@ + decimal(offset + 1) + " of "@ + decimal(pages)
        + plain
}

/// The lines `start .. end` of the document, each on a row of its own, from
/// row two downwards.
pub open spec fn body(lines: Seq<Seq<char>>, start: int, end: int) -> Seq<char>
    decreases end - start,
{
    if end <= start {
        Seq::empty()
    } else {
        body(lines, start, end - 1) + goto_sequence(1, (end - 1 - start + 2) as nat) + lines[end
            - 1]
    }
}

/// The footer: the key hint on the last row, in the accent colour.
pub open spec fn footer(terminal_height: nat, accent: Seq<char>) -> Seq<char> {
    goto_sequence(1, terminal_height) + accent + key_hint()
}

/// The write groups of one frame. Every frame starts by clearing the screen.
/// Under three rows the frame holds the message alone and no line of the
/// document; else the header, the lines of the page and the footer.
pub open spec fn frame(
    lines: Seq<Seq<char>>,
    terminal_height: int,
    offset: int,
    accent: Seq<char>,
    plain: Seq<char>,
) -> Seq<Seq<char>> {
    if terminal_height < 3 {
        seq![clear_sequence(), goto_sequence(1, 1) + too_small_message()]
    } else {
        let total = lines.len() as int;
        let pages = page_count(total, terminal_height);
        seq![
            clear_sequence(),
            header(clamp_offset(offset, pages) as nat, pages as nat, accent, plain),
            body(
                lines,
                page_start(total, terminal_height, offset),
                page_end(total, terminal_height, offset),
            ),
            footer(terminal_height as nat, accent),
        ]
    }
}

/// The colour sequences of a frame: `accent` before the header's and the
/// footer's text, `plain` after the header's.
#[derive(Debug)]
pub struct Palette {
    pub accent: String,
    pub plain: String,
}

impl Palette {
    /// The palette is one that the terminal library hands out: yellow and
    /// white, or nothing where colours are switched off.
    pub open spec fn of_terminal(&self) -> bool {
        &&& (self.accent@ == yellow_sequence() || self.accent@ == Seq::<char>::empty())
        &&& (self.plain@ == white_sequence() || self.plain@ == Seq::<char>::empty())
    }

    /// The palette that the terminal library gives in this process.
    pub fn detect() -> (palette: Palette)
        ensures
            palette.of_terminal(),
    {
        Palette { accent: yellow_foreground(), plain: white_foreground() }
    }
}

/// `termion::clear::All` as text. The crate writes the fixed sequence
/// `ESC [ 2 J`.
#[verifier::external_body]
fn clear_screen() -> (text: String)
    ensures
        text@ == clear_sequence(),
{
    format!("{}", termion::clear::All)
}

/// `termion::cursor::Goto` as text. The crate writes `ESC [`, the row in
/// decimal, `;`, the column in decimal and `H`; it refuses the position
/// (0, 0) in a debug build.
#[verifier::external_body]
fn cursor_to(column: u16, row: u16) -> (text: String)
    requires
        column != 0 || row != 0,
    ensures
        text@ == goto_sequence(column as nat, row as nat),
{
    format!("{}", termion::cursor::Goto(column, row))
}

/// `termion::color::Fg(termion::color::Yellow)` as text. The crate writes
/// the sequence for colour 3, or nothing where the environment switches
/// colours off, so the contract allows both.
#[verifier::external_body]
fn yellow_foreground() -> (text: String)
    ensures
        text@ == yellow_sequence() || text@ == Seq::<char>::empty(),
{
    format!("{}", termion::color::Fg(termion::color::Yellow))
}

/// `termion::color::Fg(termion::color::White)` as text. The crate writes
/// the sequence for colour 7, or nothing where the environment switches
/// colours off, so the contract allows both.
#[verifier::external_body]
fn white_foreground() -> (text: String)
    ensures
        text@ == white_sequence() || text@ == Seq::<char>::empty(),
{
    format!("{}", termion::color::Fg(termion::color::White))
}

fn too_small_text() -> (text: &'static str)
    ensures
        text@ == too_small_message(),
{
    "Terminal height is too small to display the file, resize the terminal and press any button or press q to quit"
}

fn key_hint_text() -> (text: &'static str)
    ensures
        text@ == key_hint(),
{
    "Press j for next page, k for previous page or q to quit"
}

/// Builds the frame that shows the page at `offset` in a terminal of
/// `terminal_height` rows. The geometry is computed here, from the height
/// given, so a frame always fits the terminal as it is now.
pub fn render_frame(
    document: &Document,
    terminal_height: u16,
    offset: usize,
    palette: &Palette,
) -> (groups: Vec<String>)
    ensures
        lines_view(groups@) == frame(
            document@,
            terminal_height as int,
            offset as int,
            palette.accent@,
            palette.plain@,
        ),
        groups@.len() == if terminal_height < MIN_HEIGHT {
            2int
        } else {
            4int
        },
{
    let mut groups: Vec<String> = Vec::new();
    groups.push(clear_screen());
    if terminal_height < MIN_HEIGHT {
        let mut message = cursor_to(1, 1);
        message.append(too_small_text());
        groups.push(message);
        assert(lines_view(groups@) =~= frame(
            document@,
            terminal_height as int,
            offset as int,
            palette.accent@,
            palette.plain@,
        ));
        return groups;
    }
    let geometry = compute_geometry(document.line_count(), terminal_height, offset);

    let mut top = cursor_to(1, 1);
    top.append(palette.accent.as_str());
    top.append("Page ");
    top.append(decimal_string(geometry.clamped_offset + 1).as_str());
    top.append(" of ");
    top.append(decimal_string(geometry.page_count).as_str());
    top.append(palette.plain.as_str());
    groups.push(top);

    let mut rows = String::new();
    let mut k: usize = geometry.start;
    while k < geometry.end
        invariant
            geometry.start <= k <= geometry.end <= document.lines@.len(),
            geometry.end - geometry.start <= terminal_height - 2,
            terminal_height >= 3,
            rows@ == body(document@, geometry.start as int, k as int),
        decreases geometry.end - k,
    {
        let row: u16 = (k - geometry.start + 2) as u16;
        rows.append(cursor_to(1, row).as_str());
        rows.append(document.lines[k].as_str());
        k += 1;
    }
    groups.push(rows);

    let mut bottom = cursor_to(1, terminal_height);
    bottom.append(palette.accent.as_str());
    bottom.append(key_hint_text());
    groups.push(bottom);
    assert(lines_view(groups@) =~= frame(
        document@,
        terminal_height as int,
        offset as int,
        palette.accent@,
        palette.plain@,
    ));
    groups
}

} // verus!
