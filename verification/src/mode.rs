//! How a document is shown: as a line count, printed as it is, or page by
//! page.

use vstd::prelude::*;
use crate::document::Document;

verus! {

/// The options of a session. They are set once and do not change.
#[derive(Clone, Copy, Debug, PartialEq, Eq, Structural)]
pub struct ViewerConfig {
    /// Show the number of lines and nothing else.
    pub line_count_only: bool,
    /// Print the document even where it does not fit the terminal.
    pub force_inline: bool,
    /// Open the pager on the last page.
    pub start_at_end: bool,
}

/// The three ways to show a document.
#[derive(Clone, Copy, Debug, PartialEq, Eq, Structural)]
pub enum Mode {
    LineCountOnly,
    PlainPrint,
    Interactive,
}

/// The mode for a document of `line_count` lines: the count alone where it is
/// asked for, whatever else is set; else a plain print where the document
/// has fewer lines than the terminal has rows, or where printing is forced;
/// else the pager.
pub open spec fn mode_for(line_count: int, config: ViewerConfig, terminal_height: int) -> Mode {
    if config.line_count_only {
        Mode::LineCountOnly
    } else if line_count < terminal_height || config.force_inline {
        Mode::PlainPrint
    } else {
        Mode::Interactive
    }
}

impl ViewerConfig {
    /// The configuration with no option set.
    pub fn new() -> (config: ViewerConfig)
        ensures
            config == (ViewerConfig {
                line_count_only: false,
                force_inline: false,
                start_at_end: false,
            }),
    {
        ViewerConfig { line_count_only: false, force_inline: false, start_at_end: false }
    }

    /// Whether the mode depends on the document and the terminal at all:
    /// where only the line count is asked for, it does not, and the terminal
    /// need not be asked for its height.
    pub fn needs_terminal(&self) -> (needed: bool)
        ensures
            needed == !self.line_count_only,
            !needed ==> forall|line_count: int, terminal_height: int|
                #[trigger] mode_for(line_count, *self, terminal_height) == Mode::LineCountOnly,
    {
        !self.line_count_only
    }
}

/// Chooses the mode for a document, a configuration and a terminal height.
pub fn select(document: &Document, config: &ViewerConfig, terminal_height: u16) -> (mode: Mode)
    ensures
        mode == mode_for(document@.len() as int, *config, terminal_height as int),
{
    if config.line_count_only {
        Mode::LineCountOnly
    } else if document.line_count() < terminal_height as usize || config.force_inline {
        Mode::PlainPrint
    } else {
        Mode::Interactive
    }
}

/// Every document, configuration and terminal height has exactly one mode,
/// and each mode has its own condition: the three conditions exclude one
/// another and one of them always holds.
pub proof fn lemma_mode_is_total_and_exclusive(
    line_count: int,
    config: ViewerConfig,
    terminal_height: int,
)
    ensures
        mode_for(line_count, config, terminal_height) == Mode::LineCountOnly
            <==> config.line_count_only,
        mode_for(line_count, config, terminal_height) == Mode::PlainPrint <==> (
        !config.line_count_only && (line_count < terminal_height || config.force_inline)),
        mode_for(line_count, config, terminal_height) == Mode::Interactive <==> (
        !config.line_count_only && line_count >= terminal_height && !config.force_inline),
{
}

} // verus!
