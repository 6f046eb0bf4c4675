//! Whole calls of the program, and the settings that it copies with.

use wl_clipboard_rs::copy;
use wl_clipboard_rs_tools::program::{
    choose_clipboard, choose_settings, from_options, verbosity, ClipboardType, Seat, ServeRequests,
};
use wl_clipboard_rs_tools::resolver::{Reply, Request};
use wl_clipboard_rs_tools::session::{Command, Event, Session};
use wl_clipboard_rs_tools::source::Source;
use wl_clipboard_rs_tools::wl_copy::Options;

fn plain() -> Options {
    Options {
        paste_once: false,
        foreground: false,
        clear: false,
        primary: false,
        regular: false,
        trim_newline: false,
        seat: None,
        mime_type: None,
        file_sources: vec![],
        stdin_source: None,
        literal_sources: vec![],
        no_text_fallback: false,
        text: vec![],
        verbose: 0,
    }
}

#[test]
fn default_settings() {
    let settings = choose_settings(&plain());
    assert_eq!(settings.serve_requests, ServeRequests::Unlimited);
    assert!(settings.foreground);
    assert_eq!(settings.clipboard, ClipboardType::Regular);
    assert!(!settings.trim_newline);
    assert!(matches!(settings.seat, Seat::All));
    assert!(!settings.omit_additional_text_mime_types);

    let mut expected = copy::Options::new();
    expected.foreground(true);
    assert_eq!(from_options(&plain()), expected);
}

#[test]
fn chosen_settings() {
    let mut options = plain();
    options.paste_once = true;
    options.primary = true;
    options.trim_newline = true;
    options.seat = Some("seat0".to_string());
    options.no_text_fallback = true;
    let settings = choose_settings(&options);
    assert_eq!(settings.serve_requests, ServeRequests::Only(1));
    assert_eq!(settings.clipboard, ClipboardType::Primary);
    assert!(matches!(&settings.seat, Seat::Specific(name) if name == "seat0"));

    let mut expected = copy::Options::new();
    expected
        .serve_requests(copy::ServeRequests::Only(1))
        .foreground(true)
        .clipboard(copy::ClipboardType::Primary)
        .trim_newline(true)
        .seat(copy::Seat::Specific("seat0".to_string()))
        .omit_additional_text_mime_types(true);
    assert_eq!(from_options(&options), expected);

    options.regular = true;
    assert_ne!(from_options(&options), expected);
    expected.clipboard(copy::ClipboardType::Both);
    assert_eq!(from_options(&options), expected);
}

#[test]
fn each_setting_reaches_the_clipboard_crate() {
    let mut options = plain();
    options.trim_newline = true;
    let mut expected = copy::Options::new();
    expected.foreground(true).trim_newline(true);
    assert_eq!(from_options(&options), expected);

    let mut options = plain();
    options.no_text_fallback = true;
    let mut expected = copy::Options::new();
    expected.foreground(true).omit_additional_text_mime_types(true);
    assert_eq!(from_options(&options), expected);

    let mut options = plain();
    options.paste_once = true;
    let mut expected = copy::Options::new();
    expected.foreground(true).serve_requests(copy::ServeRequests::Only(1));
    assert_eq!(from_options(&options), expected);
}

#[test]
fn regular_counts_only_beside_primary() {
    let mut options = plain();
    assert_eq!(choose_clipboard(&options), ClipboardType::Regular);
    options.regular = true;
    assert_eq!(choose_clipboard(&options), ClipboardType::Regular);
    options.primary = true;
    assert_eq!(choose_clipboard(&options), ClipboardType::Both);
    options.regular = false;
    assert_eq!(choose_clipboard(&options), ClipboardType::Primary);
}

#[test]
fn verbosity_starts_at_one() {
    let mut options = plain();
    assert_eq!(verbosity(&options), 1);
    options.verbose = 255;
    assert_eq!(verbosity(&options), 256);
}

#[test]
fn clearing_is_all_that_is_done() {
    let mut options = plain();
    options.clear = true;
    options.primary = true;
    options.seat = Some("seat0".to_string());
    options.text = vec![b"x".to_vec()];
    let turn = Session::start(&options);
    match turn.command {
        Command::Clear(clipboard, Seat::Specific(name)) => {
            assert_eq!(clipboard, ClipboardType::Primary);
            assert_eq!(name, "seat0");
        }
        other => panic!("{:?}", other),
    }
    let turn = turn.session.step(&options, Event::Finished);
    assert!(matches!(turn.command, Command::Exit));

    options.regular = true;
    options.seat = None;
    let turn = Session::start(&options);
    assert!(matches!(turn.command, Command::Clear(ClipboardType::Both, Seat::All)));
}

#[test]
fn copying_in_the_foreground() {
    let mut options = plain();
    options.foreground = true;
    options.text = vec![b"x".to_vec()];
    let turn = Session::start(&options);
    match &turn.command {
        Command::Copy(settings, sources) => {
            assert!(settings.foreground);
            assert_eq!(settings.serve_requests, ServeRequests::Unlimited);
            assert_eq!(sources.len(), 1);
            assert!(matches!(&sources[0].source, Source::Bytes(data) if data == b"x"));
        }
        other => panic!("{:?}", other),
    }
    let turn = turn.session.step(&options, Event::Prepared);
    assert!(matches!(turn.command, Command::Serve));
    let turn = turn.session.step(&options, Event::Finished);
    assert!(matches!(turn.command, Command::Exit));
}

#[test]
fn copying_uses_the_chosen_settings() {
    let mut options = plain();
    options.paste_once = true;
    options.primary = true;
    options.regular = true;
    options.trim_newline = true;
    options.seat = Some("seat0".to_string());
    options.no_text_fallback = true;
    options.text = vec![b"x".to_vec()];
    let built = match Session::start(&options).command {
        Command::Copy(settings, _) => settings.build(),
        other => panic!("{:?}", other),
    };
    let mut expected = copy::Options::new();
    expected
        .serve_requests(copy::ServeRequests::Only(1))
        .foreground(true)
        .clipboard(copy::ClipboardType::Both)
        .trim_newline(true)
        .seat(copy::Seat::Specific("seat0".to_string()))
        .omit_additional_text_mime_types(true);
    assert_eq!(built, expected);
    assert_eq!(from_options(&options), expected);
}

fn forked(pid: i32) -> Command {
    let mut options = plain();
    options.text = vec![b"x".to_vec()];
    let turn = Session::start(&options).session.step(&options, Event::Prepared);
    assert!(matches!(turn.command, Command::Fork));
    turn.session.step(&options, Event::Forked(pid)).command
}

#[test]
fn copying_in_the_background() {
    assert!(matches!(forked(-1), Command::AbortFork));
    assert!(matches!(forked(0), Command::ServeDetached));
    assert!(matches!(forked(1), Command::Exit));
    assert!(matches!(forked(4711), Command::Exit));
}

#[test]
fn nothing_to_copy() {
    let options = plain();
    let turn = Session::start(&options);
    assert!(matches!(turn.command, Command::Ask(Request::StdinIsTerminal)));
    let turn = turn.session.step(&options, Event::Answered(Reply::StdinIsTerminal(true)));
    match turn.command {
        Command::Fail(message) => assert_eq!(
            message,
            "no data to copy (specify text, use stdin, or use --file/--literal/--stdin)"
        ),
        other => panic!("{:?}", other),
    }
}

#[test]
fn connected_stdin_is_copied() {
    let options = plain();
    let turn = Session::start(&options);
    let turn = turn.session.step(&options, Event::Answered(Reply::StdinIsTerminal(false)));
    match turn.command {
        Command::Copy(_, sources) => assert!(matches!(sources[0].source, Source::StdIn)),
        other => panic!("{:?}", other),
    }
}

#[test]
fn a_missing_file_fails_the_call() {
    let mut options = plain();
    options.file_sources = vec!["text/plain".to_string(), "/x".to_string()];
    let turn = Session::start(&options);
    assert!(matches!(&turn.command, Command::Ask(Request::FileExists(path)) if path == "/x"));
    let turn = turn.session.step(&options, Event::Answered(Reply::FileExists(false)));
    match turn.command {
        Command::Fail(message) => assert_eq!(message, "file not found: /x"),
        other => panic!("{:?}", other),
    }
}

#[test]
fn an_event_out_of_turn_changes_nothing() {
    let mut options = plain();
    options.text = vec![b"x".to_vec()];
    let turn = Session::start(&options).session.step(&options, Event::Forked(0));
    assert!(matches!(turn.command, Command::Wait));
    let turn = turn.session.step(&options, Event::Prepared);
    assert!(matches!(turn.command, Command::Fork));
}
