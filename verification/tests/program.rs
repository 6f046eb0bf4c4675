//! The program's own resolution, answered from the file system.

use std::io::IsTerminal;
use std::path::Path;

use wl_clipboard_rs_tools::mime::{parse_mime_type, MimeType};
use wl_clipboard_rs_tools::resolution::ImplicitStdin;
use wl_clipboard_rs_tools::resolver::{Progress, Reply, Request, Resolver};
use wl_clipboard_rs_tools::source::{MimeSource, Source};
use wl_clipboard_rs_tools::wl_copy::{Options, SourceError};

fn make_options() -> Options {
    Options {
        paste_once: false,
        foreground: false,
        clear: false,
        primary: false,
        regular: false,
        trim_newline: false,
        seat: None,
        mime_type: None,
        file_sources: vec![],
        stdin_source: None,
        literal_sources: vec![],
        no_text_fallback: false,
        text: vec![],
        verbose: 0,
    }
}

fn resolve_sources(options: &Options) -> Result<Vec<MimeSource>, SourceError> {
    let mut progress = Resolver::start(options, ImplicitStdin::UnlessSourceGiven);
    loop {
        let (request, resolver) = match progress {
            Progress::Ask(request, resolver) => (request, resolver),
            Progress::Done(resolved) => return resolved,
        };
        let reply = match request {
            Request::FileExists(path) => Reply::FileExists(Path::new(&path).exists()),
            Request::ReadFile(path) => panic!("no file is there to be read: {}", path),
            Request::StdinIsTerminal => Reply::StdinIsTerminal(std::io::stdin().is_terminal()),
        };
        progress = resolver.step(options, reply);
    }
}

#[test]
fn test_parse_mime_type_auto() {
    assert!(matches!(parse_mime_type("auto"), MimeType::Autodetect));
    assert!(matches!(parse_mime_type("AUTO"), MimeType::Autodetect));
    assert!(matches!(parse_mime_type("Auto"), MimeType::Autodetect));
}

#[test]
fn test_parse_mime_type_specific() {
    match parse_mime_type("text/html") {
        MimeType::Specific(s) => assert_eq!(s, "text/html"),
        _ => panic!("expected Specific"),
    }
}

#[test]
fn test_literal_source() {
    let mut opts = make_options();
    opts.literal_sources = vec!["text/plain".to_string(), "hello".to_string()];

    let sources = resolve_sources(&opts).unwrap();
    assert_eq!(sources.len(), 1);

    match &sources[0].source {
        Source::Bytes(data) => assert_eq!(&**data, b"hello"),
        _ => panic!("expected Bytes"),
    }
    match &sources[0].mime_type {
        MimeType::Specific(s) => assert_eq!(s, "text/plain"),
        _ => panic!("expected Specific"),
    }
}

#[test]
fn test_multiple_literals() {
    let mut opts = make_options();
    opts.literal_sources = vec![
        "text/html".to_string(),
        "<b>hi</b>".to_string(),
        "text/plain".to_string(),
        "hi".to_string(),
    ];

    let sources = resolve_sources(&opts).unwrap();
    assert_eq!(sources.len(), 2);
}

#[test]
fn test_positional_args() {
    let mut opts = make_options();
    opts.text = vec!["hello".into(), "world".into()];

    let sources = resolve_sources(&opts).unwrap();
    assert_eq!(sources.len(), 1);

    match &sources[0].source {
        Source::Bytes(data) => assert_eq!(&**data, b"hello world"),
        _ => panic!("expected Bytes"),
    }
}

#[test]
fn test_positional_with_type() {
    let mut opts = make_options();
    opts.text = vec!["test".into()];
    opts.mime_type = Some("text/html".to_string());

    let sources = resolve_sources(&opts).unwrap();
    assert_eq!(sources.len(), 1);

    match &sources[0].mime_type {
        MimeType::Specific(s) => assert_eq!(s, "text/html"),
        _ => panic!("expected Specific"),
    }
}

#[test]
fn test_file_not_found() {
    let mut opts = make_options();
    opts.file_sources = vec![
        "text/plain".to_string(),
        "/nonexistent/path/file.txt".to_string(),
    ];

    let result = resolve_sources(&opts);
    assert!(matches!(result, Err(SourceError::FileNotFound(_))));
}

#[test]
fn test_literal_with_auto() {
    let mut opts = make_options();
    opts.literal_sources = vec!["auto".to_string(), "hello".to_string()];

    let sources = resolve_sources(&opts).unwrap();
    assert!(matches!(sources[0].mime_type, MimeType::Autodetect));
}
