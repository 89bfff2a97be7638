//! The command line: options first, then the paths of the files to show.

use vstd::prelude::*;
use vstd::string::StrSliceExecFns;
use crate::document::lines_view;
use crate::mode::ViewerConfig;

verus! {

/// What a command line asks for.
#[derive(Clone, Copy, Debug, PartialEq, Eq, Structural)]
pub enum Invocation {
    /// Show the usage text.
    Help,
    /// Options without a path: there is nothing to show.
    Idle,
    /// Show the files named from `first_path` on, under `config`.
    Show { config: ViewerConfig, first_path: usize },
}

/// The argument that asks for the usage text whatever else it holds.
pub open spec fn help_word() -> Seq<char> {
    seq!['-', '-', 'h', 'e', 'l', 'p']
}

/// An argument that starts with a dash holds options.
pub open spec fn is_option(argument: Seq<char>) -> bool {
    argument.len() > 0 && argument[0] == '-'
}

/// The configuration after an option argument: `n` asks for the line count,
/// `e` for a start at the end, `o` for a plain print; what was set stays set.
pub open spec fn with_options(config: ViewerConfig, argument: Seq<char>) -> ViewerConfig {
    ViewerConfig {
        line_count_only: config.line_count_only || argument.contains('n'),
        force_inline: config.force_inline || argument.contains('o'),
        start_at_end: config.start_at_end || argument.contains('e'),
    }
}

/// The reading of the arguments from position `from` on, with `config`
/// gathered so far. Options are read up to the first argument that is none:
/// that one and all after it are paths. `--help`, or an `h` among the
/// options, asks for the usage text.
pub open spec fn parsed_from(arguments: Seq<Seq<char>>, from: int, config: ViewerConfig)
    -> Invocation
    decreases arguments.len() - from,
{
    if from < 0 || from >= arguments.len() {
        Invocation::Idle
    } else if arguments[from] == help_word() {
        Invocation::Help
    } else if is_option(arguments[from]) {
        if arguments[from].contains('h') {
            Invocation::Help
        } else {
            parsed_from(arguments, from + 1, with_options(config, arguments[from]))
        }
    } else {
        Invocation::Show { config, first_path: from as usize }
    }
}

/// The reading of a whole command line, without the program's name. An empty
/// one asks for the usage text.
pub open spec fn parsed(arguments: Seq<Seq<char>>) -> Invocation {
    if arguments.len() == 0 {
        Invocation::Help
    } else {
        parsed_from(
            arguments,
            0,
            ViewerConfig { line_count_only: false, force_inline: false, start_at_end: false },
        )
    }
}

fn holds_char(text: &str, wanted: char) -> (found: bool)
    ensures
        found == text@.contains(wanted),
{
    let length = text.unicode_len();
    let mut i: usize = 0;
    while i < length
        invariant
            i <= length,
            length == text@.len(),
            forall|k: int| 0 <= k < i ==> text@[k] != wanted,
        decreases length - i,
    {
        if text.get_char(i) == wanted {
            return true;
        }
        i += 1;
    }
    false
}

fn starts_with_dash(text: &str) -> (dashed: bool)
    ensures
        dashed == is_option(text@),
{
    text.unicode_len() > 0 && text.get_char(0) == '-'
}

fn is_help_word(text: &str) -> (help: bool)
    ensures
        help == (text@ == help_word()),
{
    let help = text.unicode_len() == 6 && text.get_char(0) == '-' && text.get_char(1) == '-'
        && text.get_char(2) == 'h' && text.get_char(3) == 'e' && text.get_char(4) == 'l'
        && text.get_char(5) == 'p';
    assert(help == (text@ =~= help_word()));
    help
}

/// Reads a command line, given without the program's name.
pub fn parse_arguments(arguments: &Vec<String>) -> (invocation: Invocation)
    ensures
        invocation == parsed(lines_view(arguments@)),
{
    if arguments.len() == 0 {
        return Invocation::Help;
    }
    let ghost all = lines_view(arguments@);
    let mut config = ViewerConfig::new();
    let mut i: usize = 0;
    while i < arguments.len()
        invariant
            i <= arguments.len(),
            all == lines_view(arguments@),
            parsed(all) == parsed_from(all, i as int, config),
        decreases arguments.len() - i,
    {
        let argument = arguments[i].as_str();
        assert(all[i as int] == argument@);
        if is_help_word(argument) {
            return Invocation::Help;
        }
        if !starts_with_dash(argument) {
            return Invocation::Show { config, first_path: i };
        }
        if holds_char(argument, 'h') {
            return Invocation::Help;
        }
        let line_count_only = config.line_count_only || holds_char(argument, 'n');
        let force_inline = config.force_inline || holds_char(argument, 'o');
        let start_at_end = config.start_at_end || holds_char(argument, 'e');
        config = ViewerConfig { line_count_only, force_inline, start_at_end };
        i += 1;
    }
    Invocation::Idle
}

} // verus!
