//! The keyboard side of the pager: which command a key stands for, and what a
//! command does to the page that is shown.

use vstd::prelude::*;
use termion::event::Key;

verus! {

/// `termion::event::Key`, the key events that the terminal library reads.
/// The declaration leaves the enum open, so the variants that the functions
/// below match on are the crate's own and nothing is assumed of them.
#[verifier::external_type_specification]
pub struct ExKey(termion::event::Key);

/// What a key press asks of the pager.
#[derive(Clone, Copy, Debug, PartialEq, Eq, Structural)]
pub enum Command {
    NextPage,
    PreviousPage,
    Quit,
    Ignore,
}

/// Whether the session goes on.
#[derive(Clone, Copy, Debug, PartialEq, Eq, Structural)]
pub enum Status {
    Running,
    Exiting,
}

/// What follows from one key press.
#[derive(Clone, Copy, Debug, PartialEq, Eq, Structural)]
pub struct Transition {
    /// The page to show from now on.
    pub offset: usize,
    /// The state of the session after the key.
    pub status: Status,
    /// Whether the screen is to be drawn again.
    pub redraw: bool,
}

/// `j` and the down arrow ask for the next page, `k` and the up arrow for the
/// previous one, `q` ends the session; every other key asks for nothing.
pub open spec fn command_of(key: Key) -> Command {
    match key {
        Key::Char('j') | Key::Down => Command::NextPage,
        Key::Char('k') | Key::Up => Command::PreviousPage,
        Key::Char('q') => Command::Quit,
        _ => Command::Ignore,
    }
}

/// The page after a command: one further, but not past the last page; one
/// back, but not before the first; else the same.
pub open spec fn next_offset(offset: int, pages: int, command: Command) -> int {
    match command {
        Command::NextPage => if offset + 1 < pages - 1 {
            offset + 1
        } else {
            pages - 1
        },
        Command::PreviousPage => if offset - 1 > 0 {
            offset - 1
        } else {
            0
        },
        _ => offset,
    }
}

/// The page after a sequence of commands, taken from the first to the last.
pub open spec fn offset_after(offset: int, pages: int, commands: Seq<Command>) -> int
    decreases commands.len(),
{
    if commands.len() == 0 {
        offset
    } else {
        next_offset(offset_after(offset, pages, commands.drop_last()), pages, commands.last())
    }
}

/// The command that a key stands for.
pub fn command_for(key: Key) -> (command: Command)
    ensures
        command == command_of(key),
{
    match key {
        Key::Char('j') | Key::Down => Command::NextPage,
        Key::Char('k') | Key::Up => Command::PreviousPage,
        Key::Char('q') => Command::Quit,
        _ => Command::Ignore,
    }
}

/// Applies one command to the page `offset` of `page_count` pages. Moving
/// to another page and staying on the first or last one both draw the screen
/// again; quitting and a key that asks for nothing do not.
pub fn step(offset: usize, page_count: usize, command: Command) -> (transition: Transition)
    requires
        page_count >= 1,
    ensures
        transition.offset == next_offset(offset as int, page_count as int, command),
        transition.status == if command == Command::Quit {
            Status::Exiting
        } else {
            Status::Running
        },
        transition.redraw == (command == Command::NextPage || command
            == Command::PreviousPage),
        offset < page_count ==> transition.offset < page_count,
{
    match command {
        Command::NextPage => {
            let next: usize = if offset < page_count - 1 {
                offset + 1
            } else {
                page_count - 1
            };
            Transition { offset: next, status: Status::Running, redraw: true }
        },
        Command::PreviousPage => {
            let previous: usize = if offset > 0 {
                offset - 1
            } else {
                0
            };
            Transition { offset: previous, status: Status::Running, redraw: true }
        },
        Command::Quit => Transition { offset, status: Status::Exiting, redraw: false },
        Command::Ignore => Transition { offset, status: Status::Running, redraw: false },
    }
}

/// Whatever keys are pressed, a page that starts among the pages stays
/// among them.
pub proof fn lemma_offset_stays_in_range(offset: int, pages: int, commands: Seq<Command>)
    requires
        pages >= 1,
        0 <= offset < pages,
    ensures
        0 <= offset_after(offset, pages, commands) < pages,
    decreases commands.len(),
{
    if commands.len() > 0 {
        lemma_offset_stays_in_range(offset, pages, commands.drop_last());
    }
}

/// On the last page, asking for the next page changes nothing, however often
/// it is asked.
pub proof fn lemma_next_on_last_page_is_idle(pages: int, commands: Seq<Command>)
    requires
        pages >= 1,
        forall|i: int| 0 <= i < commands.len() ==> commands[i] == Command::NextPage,
    ensures
        next_offset(pages - 1, pages, Command::NextPage) == pages - 1,
        offset_after(pages - 1, pages, commands) == pages - 1,
    decreases commands.len(),
{
    if commands.len() > 0 {
        lemma_next_on_last_page_is_idle(pages, commands.drop_last());
    }
}

} // verus!
