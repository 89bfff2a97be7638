use catter::input::Command;
use catter::input::Status;
use catter::document::Document;
use catter::mode::select;
use catter::mode::Mode;
use catter::mode::ViewerConfig;
use catter::render::Palette;
use catter::session::ViewportState;
use termion::event::Key;

fn at_end() -> ViewerConfig {
    ViewerConfig { line_count_only: false, force_inline: false, start_at_end: true }
}

#[test]
fn session_on_a_long_document_opens_on_the_first_page() {
    let state = ViewportState::open(500, 24, &ViewerConfig::new());
    assert_eq!(state.offset, 0);
    assert_eq!(state.status, Status::Running);
    assert_eq!(state.terminal_height, 24);
    assert_eq!(state.geometry.lines_per_page, 22);
    assert_eq!(state.geometry.page_count, 23);
    assert_eq!((state.geometry.start, state.geometry.end), (0, 22));
}

#[test]
fn session_that_starts_at_the_end_opens_on_the_last_page() {
    let state = ViewportState::open(500, 24, &at_end());
    assert_eq!(state.offset, 22);
    assert_eq!((state.geometry.start, state.geometry.end), (484, 500));
}

#[test]
fn session_at_the_end_of_an_exact_multiple() {
    let state = ViewportState::open(44, 24, &at_end());
    assert_eq!(state.offset, 1);
    assert_eq!((state.geometry.start, state.geometry.end), (22, 44));
}

#[test]
fn keys_move_the_session() {
    let mut state = ViewportState::open(500, 24, &ViewerConfig::new());
    assert!(state.on_key(500, Key::Char('j')));
    assert_eq!(state.offset, 1);
    assert_eq!((state.geometry.start, state.geometry.end), (22, 44));
    assert!(state.on_key(500, Key::Down));
    assert_eq!(state.offset, 2);
    assert!(state.on_key(500, Key::Up));
    assert_eq!(state.offset, 1);
    assert!(state.on_key(500, Key::Char('k')));
    assert!(state.on_key(500, Key::Char('k')));
    assert_eq!(state.offset, 0);
    assert!(!state.on_key(500, Key::Char('x')));
    assert_eq!(state.offset, 0);
    assert_eq!(state.status, Status::Running);
    assert!(!state.on_key(500, Key::Char('q')));
    assert_eq!(state.status, Status::Exiting);
}

#[test]
fn exiting_session_takes_no_command() {
    let mut state = ViewportState::open(500, 24, &ViewerConfig::new());
    assert!(!state.apply(500, Command::Quit));
    let ended = state;
    assert!(!state.apply(500, Command::NextPage));
    assert_eq!(state, ended);
    assert!(!state.on_key(500, Key::Char('j')));
    assert_eq!(state, ended);
}

#[test]
fn next_on_the_last_page_keeps_the_offset() {
    let mut state = ViewportState::open(500, 24, &at_end());
    for _ in 0..5 {
        assert!(state.apply(500, Command::NextPage));
        assert_eq!(state.offset, 22);
        assert_eq!((state.geometry.start, state.geometry.end), (484, 500));
    }
}

#[test]
fn refresh_follows_a_resized_terminal() {
    let mut state = ViewportState::open(500, 24, &at_end());
    state.refresh(500, 52);
    assert_eq!(state.terminal_height, 52);
    assert_eq!(state.geometry.lines_per_page, 50);
    assert_eq!(state.geometry.page_count, 10);
    assert_eq!(state.offset, 9);
    assert_eq!((state.geometry.start, state.geometry.end), (450, 500));
    state.refresh(500, 12);
    assert_eq!(state.offset, 9);
    assert_eq!(state.geometry.page_count, 50);
    assert_eq!((state.geometry.start, state.geometry.end), (90, 100));
}

#[test]
fn session_renders_its_page() {
    let mut lines = Vec::new();
    for i in 0..10 {
        lines.push(format!("l{}", i));
    }
    let document = Document::new(lines);
    assert_eq!(select(&document, &ViewerConfig::new(), 5), Mode::Interactive);
    let palette = Palette { accent: String::new(), plain: String::new() };
    let mut state = ViewportState::open(document.line_count(), 5, &ViewerConfig::new());
    state.on_key(document.line_count(), Key::Char('j'));
    let frame = state.render(&document, &palette);
    assert_eq!(frame[1], "\x1b[1;1HPage 2 of 4");
    assert_eq!(frame[2], "\x1b[2;1Hl3\x1b[3;1Hl4\x1b[4;1Hl5");
    state.refresh(document.line_count(), 2);
    let small = state.render(&document, &palette);
    assert_eq!(small.len(), 2);
}
