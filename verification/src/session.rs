//! The state of one pager session: the page that is shown, the terminal
//! height it was last laid out for, and whether the session goes on.

use vstd::prelude::*;
use termion::event::Key;
use crate::document::lines_view;
use crate::document::Document;
use crate::geometry::clamp_offset;
use crate::geometry::compute_geometry;
use crate::geometry::initial_offset;
use crate::geometry::page_count;
use crate::geometry::Geometry;
use crate::geometry::MIN_HEIGHT;
use crate::input::command_for;
use crate::input::command_of;
use crate::input::next_offset;
use crate::input::step;
use crate::input::Command;
use crate::input::Status;
use crate::mode::ViewerConfig;
use crate::render::frame;
use crate::render::render_frame;
use crate::render::Palette;

verus! {

/// The viewport of a session. `geometry` is derived: it is laid out anew
/// before every frame and after every key.
#[derive(Clone, Copy, Debug, PartialEq, Eq, Structural)]
pub struct ViewportState {
    /// The page that is shown, counted from zero.
    pub offset: usize,
    /// The terminal height that `geometry` was computed for.
    pub terminal_height: u16,
    /// The layout of the page at `offset`.
    pub geometry: Geometry,
    /// Whether the session goes on.
    pub status: Status,
}

impl ViewportState {
    /// The state fits a document of `total_lines` lines: the page is one of
    /// the document's pages, and the layout is the one of that page at the
    /// recorded height.
    pub open spec fn fits(&self, total_lines: int) -> bool {
        &&& self.offset < self.geometry.page_count
        &&& self.offset == self.geometry.clamped_offset
        &&& self.geometry.describes(total_lines, self.terminal_height as int, self.offset as int)
        &&& self.geometry.start <= self.geometry.end <= total_lines
        &&& self.geometry.end - self.geometry.start <= self.geometry.lines_per_page
        &&& (self.offset == self.geometry.page_count - 1 ==> self.geometry.end == total_lines)
    }

    /// Starts a session on a document of `total_lines` lines: on the first
    /// page, or on the last one where the configuration asks for the end.
    pub fn open(total_lines: usize, terminal_height: u16, config: &ViewerConfig) -> (state:
        ViewportState)
        ensures
            state.fits(total_lines as int),
            state.terminal_height == terminal_height,
            state.status == Status::Running,
            state.offset == if config.start_at_end {
                page_count(total_lines as int, terminal_height as int) - 1
            } else {
                0
            },
    {
        let offset = initial_offset(total_lines, terminal_height, config.start_at_end);
        let geometry = compute_geometry(total_lines, terminal_height, offset);
        ViewportState { offset, terminal_height, geometry, status: Status::Running }
    }

    /// Lays the page out for the terminal height of this moment. Where the
    /// document now has fewer pages than before, the last page is shown.
    pub fn refresh(&mut self, total_lines: usize, terminal_height: u16)
        ensures
            final(self).fits(total_lines as int),
            final(self).terminal_height == terminal_height,
            final(self).status == old(self).status,
            final(self).offset == clamp_offset(
                old(self).offset as int,
                page_count(total_lines as int, terminal_height as int),
            ),
    {
        let geometry = compute_geometry(total_lines, terminal_height, self.offset);
        self.offset = geometry.clamped_offset;
        self.terminal_height = terminal_height;
        self.geometry = geometry;
    }

    /// Applies one command and says whether the screen is to be drawn again.
    /// A session that is exiting takes no command. Else the page moves among
    /// the pages that the document has at the recorded height, and `Quit`
    /// ends the session.
    pub fn apply(&mut self, total_lines: usize, command: Command) -> (redraw: bool)
        ensures
            old(self).status == Status::Exiting ==> *final(self) == *old(self) && !redraw,
            old(self).status == Status::Running ==> {
                let pages = page_count(total_lines as int, old(self).terminal_height as int);
                &&& final(self).fits(total_lines as int)
                &&& final(self).terminal_height == old(self).terminal_height
                &&& final(self).offset == next_offset(
                    clamp_offset(old(self).offset as int, pages),
                    pages,
                    command,
                )
                &&& final(self).status == if command == Command::Quit {
                    Status::Exiting
                } else {
                    Status::Running
                }
                &&& redraw == (command == Command::NextPage || command == Command::PreviousPage)
            },
    {
        match self.status {
            Status::Exiting => false,
            Status::Running => {
                let before = compute_geometry(total_lines, self.terminal_height, self.offset);
                let transition = step(before.clamped_offset, before.page_count, command);
                let after = compute_geometry(total_lines, self.terminal_height, transition.offset);
                self.offset = transition.offset;
                self.geometry = after;
                self.status = transition.status;
                transition.redraw
            },
        }
    }

    /// Applies the command that a key of the terminal stands for.
    pub fn on_key(&mut self, total_lines: usize, key: Key) -> (redraw: bool)
        ensures
            old(self).status == Status::Exiting ==> *final(self) == *old(self) && !redraw,
            old(self).status == Status::Running ==> {
                let pages = page_count(total_lines as int, old(self).terminal_height as int);
                let command = command_of(key);
                &&& final(self).fits(total_lines as int)
                &&& final(self).terminal_height == old(self).terminal_height
                &&& final(self).offset == next_offset(
                    clamp_offset(old(self).offset as int, pages),
                    pages,
                    command,
                )
                &&& final(self).status == if command == Command::Quit {
                    Status::Exiting
                } else {
                    Status::Running
                }
                &&& redraw == (command == Command::NextPage || command == Command::PreviousPage)
            },
    {
        self.apply(total_lines, command_for(key))
    }

    /// The frame that shows this state's page of `document` at this state's
    /// terminal height.
    pub fn render(&self, document: &Document, palette: &Palette) -> (groups: Vec<String>)
        ensures
            lines_view(groups@) == frame(
                document@,
                self.terminal_height as int,
                self.offset as int,
                palette.accent@,
                palette.plain@,
            ),
            groups@.len() == if self.terminal_height < MIN_HEIGHT {
                2int
            } else {
                4int
            },
    {
        render_frame(document, self.terminal_height, self.offset, palette)
    }
}

} // verus!
