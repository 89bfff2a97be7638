use catter::arguments::parse_arguments;
use catter::arguments::Invocation;
use catter::mode::ViewerConfig;

fn words(items: &[&str]) -> Vec<String> {
    items.iter().map(|s| String::from(*s)).collect()
}

fn show(line_count_only: bool, force_inline: bool, start_at_end: bool, first_path: usize) -> Invocation {
    Invocation::Show {
        config: ViewerConfig { line_count_only, force_inline, start_at_end },
        first_path,
    }
}

#[test]
fn empty_command_line_asks_for_help() {
    assert_eq!(parse_arguments(&Vec::new()), Invocation::Help);
}

#[test]
fn help_word_asks_for_help() {
    assert_eq!(parse_arguments(&words(&["--help"])), Invocation::Help);
    assert_eq!(parse_arguments(&words(&["-n", "--help", "a.txt"])), Invocation::Help);
    assert_eq!(parse_arguments(&words(&["-h"])), Invocation::Help);
    assert_eq!(parse_arguments(&words(&["-nh", "a.txt"])), Invocation::Help);
    assert_eq!(parse_arguments(&words(&["--helpful", "a.txt"])), Invocation::Help);
}

#[test]
fn path_alone_is_shown_with_no_option_set() {
    assert_eq!(parse_arguments(&words(&["a.txt"])), show(false, false, false, 0));
    assert_eq!(parse_arguments(&words(&["a.txt", "b.txt"])), show(false, false, false, 0));
}

#[test]
fn each_option_sets_its_flag() {
    assert_eq!(parse_arguments(&words(&["-n", "a.txt"])), show(true, false, false, 1));
    assert_eq!(parse_arguments(&words(&["-o", "a.txt"])), show(false, true, false, 1));
    assert_eq!(parse_arguments(&words(&["-e", "a.txt"])), show(false, false, true, 1));
}

#[test]
fn options_gather_over_several_arguments() {
    assert_eq!(parse_arguments(&words(&["-ne", "-o", "a.txt"])), show(true, true, true, 2));
    assert_eq!(parse_arguments(&words(&["-", "-e", "a.txt"])), show(false, false, true, 2));
    assert_eq!(parse_arguments(&words(&["-x", "a.txt"])), show(false, false, false, 1));
}

#[test]
fn everything_after_the_first_path_is_a_path() {
    assert_eq!(parse_arguments(&words(&["a.txt", "-n", "--help"])), show(false, false, false, 0));
    assert_eq!(parse_arguments(&words(&["-o", "none", "-h"])), show(false, true, false, 1));
}

#[test]
fn options_without_a_path_show_nothing() {
    assert_eq!(parse_arguments(&words(&["-n"])), Invocation::Idle);
    assert_eq!(parse_arguments(&words(&["-e", "-o"])), Invocation::Idle);
}

#[test]
fn empty_argument_is_a_path() {
    assert_eq!(parse_arguments(&words(&["-n", ""])), show(true, false, false, 1));
}

#[test]
fn option_letters_beyond_ascii_are_read_by_character() {
    assert_eq!(parse_arguments(&words(&["-\u{e9}n", "a.txt"])), show(true, false, false, 1));
}
