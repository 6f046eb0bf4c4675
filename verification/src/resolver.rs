//! Resolution of the options, one question at a time.
//!
//! A [`Resolver`] asks what it needs to know about the files and about the
//! standard input, in the order in which it needs to know it, and asks nothing
//! once the outcome is certain.

use vstd::prelude::*;

use crate::mime::parse_mime_type;
use crate::resolution::{
    add_source, append_later_sources, file_source, later_sources, pair_count, pair_value,
    resolved_view, takes_implicit_stdin, wants_implicit_stdin, ImplicitStdin,
};
use crate::source::{source_views, FileReplyView, MimeSource, MimeSourceView, Source};
use crate::wl_copy::{Options, SourceError, SourceErrorView};

verus! {

/// A question about the world.
#[derive(Debug)]
pub enum Request {
    /// Does the file at this path exist?
    FileExists(String),
    /// What does the file at this path hold?
    ReadFile(String),
    /// Is the standard input a terminal?
    StdinIsTerminal,
}

/// An answer to a [`Request`].
#[derive(Debug)]
pub enum Reply {
    FileExists(bool),
    /// The contents of the file, or the message of the I/O error.
    FileRead(Result<Vec<u8>, String>),
    StdinIsTerminal(bool),
}

/// A resolution that waits for an answer.
#[derive(Debug)]
pub struct Resolver {
    rule: ImplicitStdin,
    files: usize,
    found: bool,
    sources: Vec<MimeSource>,
}

/// How far a resolution has come.
#[derive(Debug)]
pub enum Progress {
    /// It needs the answer to this request.
    Ask(Request, Resolver),
    /// It has come to this end.
    Done(Result<Vec<MimeSource>, SourceError>),
}

/// What a [`Request`] stands for.
#[verifier::ext_equal]
pub enum RequestView {
    FileExists(Seq<char>),
    ReadFile(Seq<char>),
    StdinIsTerminal,
}

/// What a [`Reply`] stands for.
#[verifier::ext_equal]
pub enum ReplyView {
    FileExists(bool),
    FileRead(Result<Seq<u8>, Seq<char>>),
    StdinIsTerminal(bool),
}

/// What a [`Resolver`] stands for.
#[verifier::ext_equal]
pub struct ResolverView {
    pub rule: ImplicitStdin,
    /// How many files have been read.
    pub files: nat,
    /// The next file is known to exist.
    pub found: bool,
    /// The sources of the files that have been read.
    pub sources: Seq<MimeSourceView>,
}

/// What a [`Progress`] stands for.
#[verifier::ext_equal]
pub enum ProgressView {
    Ask(RequestView, ResolverView),
    Done(Result<Seq<MimeSourceView>, SourceErrorView>),
}

impl View for Request {
    type V = RequestView;

    open spec fn view(&self) -> RequestView {
        match self {
            Request::FileExists(path) => RequestView::FileExists(path@),
            Request::ReadFile(path) => RequestView::ReadFile(path@),
            Request::StdinIsTerminal => RequestView::StdinIsTerminal,
        }
    }
}

impl View for Reply {
    type V = ReplyView;

    open spec fn view(&self) -> ReplyView {
        match self {
            Reply::FileExists(exists) => ReplyView::FileExists(*exists),
            Reply::FileRead(Ok(data)) => ReplyView::FileRead(Ok(data@)),
            Reply::FileRead(Err(cause)) => ReplyView::FileRead(Err(cause@)),
            Reply::StdinIsTerminal(terminal) => ReplyView::StdinIsTerminal(*terminal),
        }
    }
}

impl View for Resolver {
    type V = ResolverView;

    closed spec fn view(&self) -> ResolverView {
        ResolverView {
            rule: self.rule,
            files: self.files as nat,
            found: self.found,
            sources: source_views(self.sources@),
        }
    }
}

impl View for Progress {
    type V = ProgressView;

    open spec fn view(&self) -> ProgressView {
        match self {
            Progress::Ask(request, resolver) => ProgressView::Ask(request@, resolver@),
            Progress::Done(resolved) => ProgressView::Done(resolved_view(*resolved)),
        }
    }
}

/// The state in which a resolution begins.
pub open spec fn initial_state(rule: ImplicitStdin) -> ResolverView {
    ResolverView { rule, files: 0, found: false, sources: seq![] }
}

/// The outcome depends on whether the standard input is a terminal.
pub open spec fn depends_on_stdin(options: Options, rule: ImplicitStdin) -> bool {
    options.stdin_source is Some || wants_implicit_stdin(options, rule)
}

/// What has to be known next. Each file is looked for and then read, in the
/// order of the arguments; the standard input comes after all files.
pub open spec fn next_request(options: Options, state: ResolverView) -> Option<RequestView> {
    if state.files < pair_count(options.file_sources@) {
        let path = pair_value(options.file_sources@, state.files as int);
        if state.found {
            Some(RequestView::ReadFile(path))
        } else {
            Some(RequestView::FileExists(path))
        }
    } else if depends_on_stdin(options, state.rule) {
        Some(RequestView::StdinIsTerminal)
    } else {
        None
    }
}

/// How far a resolution in this state has come.
pub open spec fn progress(options: Options, state: ResolverView) -> ProgressView {
    match next_request(options, state) {
        Some(request) => ProgressView::Ask(request, state),
        None => ProgressView::Done(
            Ok(state.sources + later_sources(options, state.rule, true)),
        ),
    }
}

/// How far a resolution in this state comes with this reply. A reply to
/// something else than was asked changes nothing.
pub open spec fn progress_after(
    options: Options,
    state: ResolverView,
    reply: ReplyView,
) -> ProgressView {
    match (next_request(options, state), reply) {
        (Some(RequestView::FileExists(path)), ReplyView::FileExists(exists)) => if exists {
            progress(options, ResolverView { found: true, ..state })
        } else {
            ProgressView::Done(Err(SourceErrorView::FileNotFound(path)))
        },
        (Some(RequestView::ReadFile(path)), ReplyView::FileRead(Ok(data))) => progress(
            options,
            ResolverView {
                files: state.files + 1,
                found: false,
                sources: state.sources.push(
                    file_source(options.file_sources@, state.files as int, data),
                ),
                ..state
            },
        ),
        (Some(RequestView::ReadFile(path)), ReplyView::FileRead(Err(cause))) => {
            ProgressView::Done(Err(SourceErrorView::FileReadError(path, cause)))
        },
        (Some(RequestView::StdinIsTerminal), ReplyView::StdinIsTerminal(terminal)) => {
            if options.stdin_source is Some && terminal {
                ProgressView::Done(Err(SourceErrorView::NoStdinConnected))
            } else {
                ProgressView::Done(
                    Ok(state.sources + later_sources(options, state.rule, terminal)),
                )
            }
        },
        _ => progress(options, state),
    }
}

/// The answer to the next request where the files bring these replies.
pub open spec fn answer(
    options: Options,
    state: ResolverView,
    replies: Seq<FileReplyView>,
    terminal: bool,
) -> ReplyView {
    let reply = replies[state.files as int];
    if state.files >= pair_count(options.file_sources@) {
        ReplyView::StdinIsTerminal(terminal)
    } else if state.found {
        match reply {
            FileReplyView::Data(data) => ReplyView::FileRead(Ok(data)),
            FileReplyView::Failed(cause) => ReplyView::FileRead(Err(cause)),
            FileReplyView::Missing => ReplyView::FileRead(Err(seq![])),
        }
    } else {
        ReplyView::FileExists(!(reply is Missing))
    }
}

/// A bound on how many requests are still to come.
pub open spec fn requests_left(options: Options, state: ResolverView) -> nat {
    let pairs = pair_count(options.file_sources@);
    if state.files < pairs {
        (2 * (pairs - state.files) + if state.found {
            0int
        } else {
            1int
        }) as nat
    } else {
        1
    }
}

/// What a resolution in this state ends in when each request is answered.
pub open spec fn run(
    options: Options,
    state: ResolverView,
    replies: Seq<FileReplyView>,
    terminal: bool,
) -> Result<Seq<MimeSourceView>, SourceErrorView>
    decreases requests_left(options, state),
{
    match progress(options, state) {
        ProgressView::Done(resolved) => resolved,
        ProgressView::Ask(request, _) => match progress_after(
            options,
            state,
            answer(options, state, replies, terminal),
        ) {
            ProgressView::Done(resolved) => resolved,
            ProgressView::Ask(_, next) => run(options, next, replies, terminal),
        },
    }
}

/// How many requests a resolution in this state makes until it ends.
pub open spec fn requests_made(
    options: Options,
    state: ResolverView,
    replies: Seq<FileReplyView>,
    terminal: bool,
) -> nat
    decreases requests_left(options, state),
{
    match progress(options, state) {
        ProgressView::Done(_) => 0,
        ProgressView::Ask(request, _) => match progress_after(
            options,
            state,
            answer(options, state, replies, terminal),
        ) {
            ProgressView::Done(_) => 1,
            ProgressView::Ask(_, next) => 1 + requests_made(options, next, replies, terminal),
        },
    }
}

impl Resolver {
    /// Begins to resolve the options.
    pub fn start(options: &Options, rule: ImplicitStdin) -> (reached: Progress)
        ensures
            reached@ == progress(*options, initial_state(rule)),
    {
        let sources: Vec<MimeSource> = Vec::new();
        let resolver = Resolver { rule, files: 0, found: false, sources };
        assert(resolver@ =~= initial_state(rule));
        resolver.proceed(options)
    }

    /// Takes the answer to the request that the resolution waits for.
    pub fn step(self, options: &Options, reply: Reply) -> (reached: Progress)
        ensures
            reached@ == progress_after(*options, self@, reply@),
    {
        let mut resolver = self;
        let args = &options.file_sources;
        if resolver.files < args.len() / 2 {
            let i: usize = resolver.files;
            if resolver.found {
                match reply {
                    Reply::FileRead(Ok(data)) => {
                        add_source(
                            &mut resolver.sources,
                            Source::Bytes(data),
                            parse_mime_type(args[2 * i].as_str()),
                        );
                        resolver.files = i + 1;
                        resolver.found = false;
                    },
                    Reply::FileRead(Err(cause)) => {
                        return Progress::Done(
                            Err(SourceError::FileReadError(args[2 * i + 1].clone(), cause)),
                        );
                    },
                    _ => {},
                }
            } else {
                match reply {
                    Reply::FileExists(true) => {
                        resolver.found = true;
                    },
                    Reply::FileExists(false) => {
                        return Progress::Done(
                            Err(SourceError::FileNotFound(args[2 * i + 1].clone())),
                        );
                    },
                    _ => {},
                }
            }
        } else if options.stdin_source.is_some() || takes_implicit_stdin(options, resolver.rule) {
            match reply {
                Reply::StdinIsTerminal(terminal) => {
                    if options.stdin_source.is_some() && terminal {
                        return Progress::Done(Err(SourceError::NoStdinConnected));
                    }
                    return Progress::Done(
                        Ok(append_later_sources(options, resolver.rule, terminal, resolver.sources)),
                    );
                },
                _ => {},
            }
        }
        resolver.proceed(options)
    }

    /// Asks for what has to be known next, or ends where nothing has to be.
    fn proceed(self, options: &Options) -> (reached: Progress)
        ensures
            reached@ == progress(*options, self@),
    {
        let args = &options.file_sources;
        if self.files < args.len() / 2 {
            let path = args[2 * self.files + 1].clone();
            if self.found {
                Progress::Ask(Request::ReadFile(path), self)
            } else {
                Progress::Ask(Request::FileExists(path), self)
            }
        } else if options.stdin_source.is_some() || takes_implicit_stdin(options, self.rule) {
            Progress::Ask(Request::StdinIsTerminal, self)
        } else {
            Progress::Done(Ok(append_later_sources(options, self.rule, true, self.sources)))
        }
    }
}

} // verus!
