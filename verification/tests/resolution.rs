//! Resolution from given replies, at once and request by request.

use wl_clipboard_rs_tools::mime::{parse_mime_type, MimeType};
use wl_clipboard_rs_tools::program;
use wl_clipboard_rs_tools::resolution::{resolve, ImplicitStdin};
use wl_clipboard_rs_tools::resolver::{Progress, Reply, Request, Resolver};
use wl_clipboard_rs_tools::source::{FileReply, MimeSource, Source};
use wl_clipboard_rs_tools::wl_copy::{resolve_sources, Options, SourceError};

fn plain() -> Options {
    Options {
        paste_once: false,
        foreground: false,
        clear: false,
        primary: false,
        regular: false,
        trim_newline: false,
        seat: None,
        mime_type: None,
        file_sources: vec![],
        stdin_source: None,
        literal_sources: vec![],
        no_text_fallback: false,
        text: vec![],
        verbose: 0,
    }
}

fn words(list: &[&str]) -> Vec<String> {
    list.iter().map(|word| word.to_string()).collect()
}

fn data(bytes: &[u8]) -> FileReply {
    FileReply::Data(bytes.to_vec())
}

/// A source as its MIME type (`?` for detection) and its bytes (`-` for the
/// standard input).
fn shown(sources: &[MimeSource]) -> Vec<(String, Vec<u8>)> {
    sources
        .iter()
        .map(|entry| {
            let mime = match &entry.mime_type {
                MimeType::Autodetect => "?".to_string(),
                MimeType::Specific(name) => name.clone(),
            };
            let bytes = match &entry.source {
                Source::StdIn => b"-".to_vec(),
                Source::Bytes(bytes) => bytes.clone(),
            };
            (mime, bytes)
        })
        .collect()
}

fn entry(mime: &str, bytes: &[u8]) -> (String, Vec<u8>) {
    (mime.to_string(), bytes.to_vec())
}

fn everything() -> Options {
    let mut options = plain();
    options.file_sources = words(&["text/css", "a.css", "AUTO", "b.bin"]);
    options.stdin_source = Some("image/png".to_string());
    options.literal_sources = words(&["text/plain", "gr\u{fc}n", "text/css", "c"]);
    options.text = vec![b"x".to_vec(), b"".to_vec(), vec![0xff, 0x00]];
    options.mime_type = Some("text/html".to_string());
    options
}

#[test]
fn auto_is_matched_in_any_case_and_only_whole() {
    assert!(matches!(parse_mime_type("aUtO"), MimeType::Autodetect));
    for word in ["", "aut", "autos", "auto ", " auto", "autp", "\u{e0}uto", "!uto", "AUT\u{2f}"] {
        match parse_mime_type(word) {
            MimeType::Specific(name) => assert_eq!(name, word),
            MimeType::Autodetect => panic!("{} was taken for auto", word),
        }
    }
}

#[test]
fn sources_come_in_order() {
    let sources =
        resolve_sources(&everything(), vec![data(b"css"), data(b"bin")], false).unwrap();
    assert_eq!(
        shown(&sources),
        vec![
            entry("text/css", b"css"),
            entry("?", b"bin"),
            entry("image/png", b"-"),
            entry("text/plain", b"gr\xc3\xbcn"),
            entry("text/css", b"c"),
            entry("text/html", b"x  \xff\x00"),
        ]
    );
}

#[test]
fn stdin_option_needs_a_connected_stdin() {
    let resolved = resolve_sources(&everything(), vec![data(b"css"), data(b"bin")], true);
    assert!(matches!(resolved, Err(SourceError::NoStdinConnected)));
}

#[test]
fn first_bad_file_decides() {
    let replies = vec![FileReply::Failed("denied".to_string()), FileReply::Missing];
    match resolve_sources(&everything(), replies, true) {
        Err(SourceError::FileReadError(path, cause)) => {
            assert_eq!(path, "a.css");
            assert_eq!(cause, "denied");
        }
        other => panic!("{:?}", other),
    }
    let replies = vec![data(b""), FileReply::Missing];
    match resolve_sources(&everything(), replies, false) {
        Err(SourceError::FileNotFound(path)) => assert_eq!(path, "b.bin"),
        other => panic!("{:?}", other),
    }
}

#[test]
fn files_after_a_bad_one_need_no_reply() {
    match program::resolve_sources(&everything(), vec![FileReply::Missing], true) {
        Err(SourceError::FileNotFound(path)) => assert_eq!(path, "a.css"),
        other => panic!("{:?}", other),
    }
}

#[test]
fn messages() {
    assert_eq!(
        SourceError::FileNotFound("/x".to_string()).message(),
        "file not found: /x"
    );
    assert_eq!(
        SourceError::FileReadError("/x".to_string(), "denied".to_string()).message(),
        "failed to read file '/x': denied"
    );
    assert_eq!(
        SourceError::NoStdinConnected.message(),
        "--stdin requires stdin to be connected (not a TTY)"
    );
    assert_eq!(SourceError::ConflictingSourceType("both".to_string()).message(), "both");
}

#[test]
fn implicit_stdin_follows_the_rule() {
    let mut options = plain();
    options.mime_type = Some("text/html".to_string());
    let stdin = vec![entry("text/html", b"-")];
    assert_eq!(shown(&resolve_sources(&options, vec![], false).unwrap()), stdin);
    assert_eq!(shown(&program::resolve_sources(&options, vec![], false).unwrap()), stdin);
    assert_eq!(resolve_sources(&options, vec![], true).unwrap().len(), 0);
    assert_eq!(program::resolve_sources(&options, vec![], true).unwrap().len(), 0);

    options.literal_sources = words(&["text/plain", "hi"]);
    assert_eq!(
        shown(&resolve_sources(&options, vec![], false).unwrap()),
        vec![entry("text/plain", b"hi"), entry("text/html", b"-")]
    );
    assert_eq!(
        shown(&program::resolve_sources(&options, vec![], false).unwrap()),
        vec![entry("text/plain", b"hi")]
    );
    assert_eq!(resolve_sources(&options, vec![], true).unwrap().len(), 1);
}

#[test]
fn stdin_is_named_at_most_once() {
    let mut options = plain();
    options.stdin_source = Some("auto".to_string());
    for rule in [ImplicitStdin::UnlessStdinGiven, ImplicitStdin::UnlessSourceGiven] {
        let sources = resolve(&options, rule, vec![], false).unwrap();
        assert_eq!(shown(&sources), vec![entry("?", b"-")]);
    }
}

#[test]
fn unpaired_arguments_are_ignored() {
    let mut options = plain();
    options.file_sources = words(&["text/css", "a.css", "text/html"]);
    options.literal_sources = words(&["text/plain", "hi", "odd"]);
    let sources = program::resolve_sources(&options, vec![data(b"css")], false).unwrap();
    assert_eq!(shown(&sources), vec![entry("text/css", b"css"), entry("text/plain", b"hi")]);

    options.file_sources = words(&["text/css"]);
    options.literal_sources = vec![];
    assert_eq!(program::resolve_sources(&options, vec![], false).unwrap().len(), 0);
    assert_eq!(resolve_sources(&options, vec![], false).unwrap().len(), 1);
}

#[test]
fn text_keeps_stdin_out() {
    let mut options = plain();
    options.text = vec![b"one".to_vec()];
    let sources = resolve_sources(&options, vec![], false).unwrap();
    assert_eq!(shown(&sources), vec![entry("?", b"one")]);
}

/// Answers each request, and returns what was asked beside the outcome.
fn drive(
    options: &Options,
    files: &[(&str, FileReply)],
    terminal: bool,
) -> (Vec<String>, Result<Vec<MimeSource>, SourceError>) {
    let mut asked = vec![];
    let mut progress = Resolver::start(options, ImplicitStdin::UnlessSourceGiven);
    loop {
        let (request, resolver) = match progress {
            Progress::Ask(request, resolver) => (request, resolver),
            Progress::Done(resolved) => return (asked, resolved),
        };
        let lookup = |path: &str| &files.iter().find(|file| file.0 == path).unwrap().1;
        let reply = match &request {
            Request::FileExists(path) => {
                asked.push(format!("exists {}", path));
                Reply::FileExists(!matches!(lookup(path), FileReply::Missing))
            }
            Request::ReadFile(path) => {
                asked.push(format!("read {}", path));
                Reply::FileRead(match lookup(path) {
                    FileReply::Data(bytes) => Ok(bytes.clone()),
                    FileReply::Failed(cause) => Err(cause.clone()),
                    FileReply::Missing => panic!("read although missing"),
                })
            }
            Request::StdinIsTerminal => {
                asked.push("terminal".to_string());
                Reply::StdinIsTerminal(terminal)
            }
        };
        progress = resolver.step(options, reply);
    }
}

#[test]
fn requests_end_in_the_resolution() {
    let files = [("a.css", data(b"css")), ("b.bin", data(b"bin"))];
    let (asked, resolved) = drive(&everything(), &files, false);
    assert_eq!(
        asked,
        words(&["exists a.css", "read a.css", "exists b.bin", "read b.bin", "terminal"])
    );
    let at_once = resolve_sources(&everything(), vec![data(b"css"), data(b"bin")], false);
    assert_eq!(shown(&resolved.unwrap()), shown(&at_once.unwrap()));
}

#[test]
fn requests_stop_at_the_first_bad_file() {
    let files = [("a.css", FileReply::Missing), ("b.bin", data(b"bin"))];
    let (asked, resolved) = drive(&everything(), &files, false);
    assert_eq!(asked, words(&["exists a.css"]));
    assert!(matches!(resolved, Err(SourceError::FileNotFound(path)) if path == "a.css"));

    let files = [("a.css", data(b"css")), ("b.bin", FileReply::Failed("denied".to_string()))];
    let (asked, resolved) = drive(&everything(), &files, false);
    assert_eq!(asked, words(&["exists a.css", "read a.css", "exists b.bin", "read b.bin"]));
    assert_eq!(
        resolved.unwrap_err().message(),
        "failed to read file 'b.bin': denied"
    );
}

#[test]
fn stdin_is_looked_at_only_where_it_matters() {
    let mut options = plain();
    options.text = vec![b"one".to_vec()];
    let (asked, resolved) = drive(&options, &[], true);
    assert!(asked.is_empty());
    assert_eq!(shown(&resolved.unwrap()), vec![entry("?", b"one")]);

    options.stdin_source = Some("auto".to_string());
    let (asked, resolved) = drive(&options, &[], true);
    assert_eq!(asked, words(&["terminal"]));
    assert!(matches!(resolved, Err(SourceError::NoStdinConnected)));
}

#[test]
fn a_reply_to_something_else_changes_nothing() {
    let options = everything();
    let resolver = match Resolver::start(&options, ImplicitStdin::UnlessSourceGiven) {
        Progress::Ask(_, resolver) => resolver,
        Progress::Done(_) => panic!("the files are still to be read"),
    };
    match resolver.step(&options, Reply::StdinIsTerminal(true)) {
        Progress::Ask(Request::FileExists(path), _) => assert_eq!(path, "a.css"),
        other => panic!("{:?}", other),
    }
}
