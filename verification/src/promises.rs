//! What is promised of each option, told from the options, the answers about
//! the world and the events alone.

use vstd::prelude::*;
use vstd::utf8::encode_utf8;

use crate::laws::{law_program_copies_what_resolves, law_run_is_resolution};
use crate::mime::{named_mime_type, same_letter, same_text, MimeType, MimeTypeView};
use crate::program::{
    chosen_clipboard, chosen_seat, chosen_settings, ClipboardType, CopySettings, Seat, SeatView,
    ServeRequests,
};
use crate::resolution::{
    answers_files, file_sources, joined, law_first_failure, lemma_first_failure, resolution,
    resolved_view, ImplicitStdin,
};
use crate::resolver::{
    answer, initial_state, progress, progress_after, run, Progress, ProgressView, Reply, ReplyView,
    Request, RequestView, Resolver, ResolverView,
};
use crate::session::{
    first_turn, turn_after, turn_when_resolved, Command, CommandView, Event, EventView, Session,
    SessionView, Turn, TurnView,
};
use crate::source::{
    reply_views, source_views, FileReply, FileReplyView, MimeSource, MimeSourceView, Source,
    SourceView,
};
use crate::wl_copy::{error_message, Options, SourceError, SourceErrorView};

verus! {

// MIME types.

/// The word `auto`, with each letter in either case, asks for detection; every
/// other word is the MIME type, letter for letter.
pub proof fn law_words_for_mime_types(word: Seq<char>)
    ensures
        ({
            let is_auto = {
                &&& word.len() == 4
                &&& word[0] == 'a' || word[0] == 'A'
                &&& word[1] == 'u' || word[1] == 'U'
                &&& word[2] == 't' || word[2] == 'T'
                &&& word[3] == 'o' || word[3] == 'O'
            };
            &&& is_auto ==> named_mime_type(word) == MimeTypeView::Autodetect
            &&& !is_auto ==> named_mime_type(word) == MimeTypeView::Specific(word)
        }),
{
    reveal_strlit("auto");
    let auto = "auto"@;
    assert(auto.len() == 4 && auto[0] == 'a' && auto[1] == 'u' && auto[2] == 't' && auto[3] == 'o');
    if same_text(word, auto) {
        assert(same_letter(word[0], auto[0]) && same_letter(word[1], auto[1]) && same_letter(
            word[2],
            auto[2],
        ) && same_letter(word[3], auto[3]));
    }
}

// Sources.

/// The contents of a file are copied whole, under the MIME type that is given
/// with the path.
pub proof fn law_files_are_copied_whole(
    options: Options,
    rule: ImplicitStdin,
    replies: Seq<FileReplyView>,
    terminal: bool,
    i: int,
)
    requires
        replies.len() == options.file_sources@.len() / 2,
        0 <= i < replies.len(),
    ensures
        resolution(options, rule, replies, terminal) matches Ok(sources) ==> {
            &&& i < sources.len()
            &&& replies[i] matches FileReplyView::Data(data) && sources[i].source
                == SourceView::Bytes(data)
            &&& sources[i].mime_type == named_mime_type(options.file_sources@[2 * i]@)
        },
        run(options, initial_state(rule), replies, terminal) matches Ok(sources) ==> {
            &&& i < sources.len()
            &&& replies[i] matches FileReplyView::Data(data) && sources[i].source
                == SourceView::Bytes(data)
            &&& sources[i].mime_type == named_mime_type(options.file_sources@[2 * i]@)
        },
        !options.clear ==> (turn_when_resolved(
            options,
            first_turn(options),
            replies,
            terminal,
        ).command matches CommandView::Copy(_, sources) ==> {
            &&& i < sources.len()
            &&& replies[i] matches FileReplyView::Data(data) && sources[i].source
                == SourceView::Bytes(data)
            &&& sources[i].mime_type == named_mime_type(options.file_sources@[2 * i]@)
        }),
{
    law_first_failure(replies);
    law_run_is_resolution(options, rule, replies, terminal);
    if !options.clear {
        law_program_copies_what_resolves(options, replies, terminal);
    }
}

/// A file that is missing, or cannot be read, is reported by its own path, if
/// no file before it is bad.
pub proof fn law_bad_files_are_reported(
    options: Options,
    rule: ImplicitStdin,
    replies: Seq<FileReplyView>,
    terminal: bool,
    i: int,
)
    requires
        0 <= i < replies.len(),
        forall|j: int| 0 <= j < i ==> #[trigger] replies[j] is Data,
    ensures
        replies[i] is Missing ==> resolution(options, rule, replies, terminal) == Err::<
            Seq<MimeSourceView>,
            _,
        >(SourceErrorView::FileNotFound(options.file_sources@[2 * i + 1]@)),
        replies[i] matches FileReplyView::Failed(cause) ==> resolution(
            options,
            rule,
            replies,
            terminal,
        ) == Err::<Seq<MimeSourceView>, _>(
            SourceErrorView::FileReadError(options.file_sources@[2 * i + 1]@, cause),
        ),
{
    if !(replies[i] is Data) {
        lemma_first_failure(replies, i as nat);
    }
}

/// Where all files can be read, only a standard input that an option names and
/// that is not connected is an error.
pub proof fn law_named_stdin_must_be_connected(
    options: Options,
    rule: ImplicitStdin,
    replies: Seq<FileReplyView>,
    terminal: bool,
)
    requires
        forall|j: int| 0 <= j < replies.len() ==> #[trigger] replies[j] is Data,
    ensures
        options.stdin_source is Some && terminal ==> resolution(options, rule, replies, terminal)
            == Err::<Seq<MimeSourceView>, _>(SourceErrorView::NoStdinConnected),
        !(options.stdin_source is Some && terminal) ==> resolution(options, rule, replies, terminal)
            is Ok,
{
    law_first_failure(replies);
}

/// There is a source for each file, one for a standard input that is named, one
/// for each literal, and one for the text or else for a connected standard
/// input that the rule lets in.
pub proof fn law_source_count(
    options: Options,
    rule: ImplicitStdin,
    replies: Seq<FileReplyView>,
    terminal: bool,
)
    requires
        replies.len() == options.file_sources@.len() / 2,
    ensures
        resolution(options, rule, replies, terminal) matches Ok(sources) ==> sources.len()
            == options.file_sources@.len() / 2 + (if options.stdin_source is Some {
            1nat
        } else {
            0nat
        }) + options.literal_sources@.len() / 2 + (if options.text@.len() > 0 {
            1nat
        } else if options.stdin_source is Some || terminal {
            0nat
        } else if rule is UnlessStdinGiven || (options.file_sources@.len() == 0
            && options.literal_sources@.len() == 0) {
            1nat
        } else {
            0nat
        }),
{
}

/// A standard input that an option names comes right after the files, under the
/// MIME type that is given with the option.
pub proof fn law_named_stdin_is_copied(
    options: Options,
    rule: ImplicitStdin,
    replies: Seq<FileReplyView>,
    terminal: bool,
)
    requires
        replies.len() == options.file_sources@.len() / 2,
    ensures
        resolution(options, rule, replies, terminal) matches Ok(sources) ==> (
        options.stdin_source matches Some(word) ==> {
            let at = options.file_sources@.len() as int / 2;
            &&& at < sources.len()
            &&& sources[at].source == SourceView::StdIn
            &&& sources[at].mime_type == named_mime_type(word@)
        }),
{
}

/// A literal is copied whole, in UTF-8, under the MIME type that is given with
/// it, after the files and a standard input that is named.
pub proof fn law_literals_are_copied_whole(
    options: Options,
    rule: ImplicitStdin,
    replies: Seq<FileReplyView>,
    terminal: bool,
    i: int,
)
    requires
        replies.len() == options.file_sources@.len() / 2,
        0 <= i < options.literal_sources@.len() as int / 2,
    ensures
        resolution(options, rule, replies, terminal) matches Ok(sources) ==> {
            let at = options.file_sources@.len() as int / 2 + (if options.stdin_source is Some {
                1int
            } else {
                0int
            }) + i;
            &&& at < sources.len()
            &&& sources[at].source == SourceView::Bytes(
                encode_utf8(options.literal_sources@[2 * i + 1]@),
            )
            &&& sources[at].mime_type == named_mime_type(options.literal_sources@[2 * i]@)
        },
{
}

/// No text is empty, and a single argument is copied byte for byte.
pub proof fn law_single_text_is_verbatim(a: Vec<u8>)
    ensures
        joined(Seq::<Vec<u8>>::empty()) == Seq::<u8>::empty(),
        joined(seq![a]) == a@,
{
}

/// One more argument adds a space and the whole of itself.
pub proof fn law_text_grows_by_an_argument(text: Seq<Vec<u8>>, a: Vec<u8>)
    requires
        text.len() > 0,
    ensures
        joined(text.push(a)) == joined(text) + seq![0x20u8] + a@,
{
    assert(text.push(a).drop_last() =~= text);
}

/// The text, where there is any, is the last source, under the MIME type of the
/// type option, or detected where there is no such option.
pub proof fn law_text_is_copied_whole(
    options: Options,
    rule: ImplicitStdin,
    replies: Seq<FileReplyView>,
    terminal: bool,
)
    requires
        replies.len() == options.file_sources@.len() / 2,
        options.text@.len() > 0,
    ensures
        resolution(options, rule, replies, terminal) matches Ok(sources) ==> {
            &&& sources.len() > 0
            &&& sources.last().source == SourceView::Bytes(joined(options.text@))
            &&& options.text@.len() == 1 ==> sources.last().source == SourceView::Bytes(
                options.text@[0]@,
            )
            &&& options.mime_type is None ==> sources.last().mime_type == MimeTypeView::Autodetect
            &&& options.mime_type matches Some(word) ==> sources.last().mime_type
                == named_mime_type(word@)
        },
        !options.clear ==> (turn_when_resolved(
            options,
            first_turn(options),
            replies,
            terminal,
        ).command matches CommandView::Copy(_, sources) ==> {
            &&& sources.last().source == SourceView::Bytes(joined(options.text@))
            &&& options.mime_type is None ==> sources.last().mime_type == MimeTypeView::Autodetect
            &&& options.mime_type matches Some(word) ==> sources.last().mime_type
                == named_mime_type(word@)
        }),
{
    if !options.clear {
        law_program_copies_what_resolves(options, replies, terminal);
    }
}

/// A standard input that is connected and not named is the last source where no
/// text is given and the rule lets it in, under the MIME type of the type
/// option, or detected where there is no such option.
pub proof fn law_unnamed_stdin_is_copied(
    options: Options,
    rule: ImplicitStdin,
    replies: Seq<FileReplyView>,
)
    requires
        replies.len() == options.file_sources@.len() / 2,
        options.text@.len() == 0,
        options.stdin_source is None,
        rule is UnlessStdinGiven || (options.file_sources@.len() == 0
            && options.literal_sources@.len() == 0),
    ensures
        resolution(options, rule, replies, false) matches Ok(sources) ==> {
            &&& sources.len() > 0
            &&& sources.last().source == SourceView::StdIn
            &&& options.mime_type is None ==> sources.last().mime_type == MimeTypeView::Autodetect
            &&& options.mime_type matches Some(word) ==> sources.last().mime_type
                == named_mime_type(word@)
        },
        !options.clear && rule is UnlessSourceGiven ==> (turn_when_resolved(
            options,
            first_turn(options),
            replies,
            false,
        ).command matches CommandView::Copy(_, sources) && {
            &&& sources.len() == 1
            &&& sources[0].source == SourceView::StdIn
            &&& options.mime_type is None ==> sources[0].mime_type == MimeTypeView::Autodetect
            &&& options.mime_type matches Some(word) ==> sources[0].mime_type == named_mime_type(
                word@,
            )
        }),
{
    law_first_failure(replies);
    if !options.clear {
        law_program_copies_what_resolves(options, replies, false);
    }
}

/// A reply for each file is enough to resolve, and so are the replies up to the
/// first bad file.
pub proof fn law_replies_that_are_enough(args: Seq<String>, replies: Seq<FileReplyView>)
    requires
        replies.len() <= args.len() / 2,
        replies.len() == args.len() / 2 || exists|i: int|
            0 <= i < replies.len() && !(#[trigger] replies[i] is Data),
    ensures
        answers_files(args, replies),
{
    law_first_failure(replies);
}

// Questions and answers.

/// A resolution begins with no file read, under the rule that it is given.
pub proof fn law_resolution_begins_empty(rule: ImplicitStdin)
    ensures
        initial_state(rule).rule == rule,
        initial_state(rule).files == 0,
        !initial_state(rule).found,
        initial_state(rule).sources.len() == 0,
{
}

/// The next question is about the next file, by its own path: whether it
/// exists, and then what it holds. After all files it is whether the standard
/// input is a terminal, but only where an option names that, or where it may be
/// copied unnamed.
pub proof fn law_next_question(options: Options, state: ResolverView)
    ensures
        ({
            let path = options.file_sources@[2 * state.files as int + 1]@;
            let reached = progress(options, state);
            if state.files < options.file_sources@.len() / 2 {
                if state.found {
                    reached == ProgressView::Ask(RequestView::ReadFile(path), state)
                } else {
                    reached == ProgressView::Ask(RequestView::FileExists(path), state)
                }
            } else if options.stdin_source is Some || (options.text@.len() == 0 && (
            state.rule is UnlessStdinGiven || (options.file_sources@.len() == 0
                && options.literal_sources@.len() == 0))) {
                reached == ProgressView::Ask(RequestView::StdinIsTerminal, state)
            } else {
                reached matches ProgressView::Done(Ok(sources)) && state.sources.is_prefix_of(
                    sources,
                )
            }
        }),
{
    let reached = progress(options, state);
    if let ProgressView::Done(Ok(sources)) = reached {
        assert(sources.take(state.sources.len() as int) =~= state.sources);
    }
}

/// What is learnt about a file: that it exists leads to its being read, that it
/// does not is an error; its contents become a source, whole, under the MIME
/// type that is given with its path; that it cannot be read is an error.
pub proof fn law_answers_about_files(
    options: Options,
    state: ResolverView,
    data: Seq<u8>,
    cause: Seq<char>,
)
    requires
        state.files < options.file_sources@.len() / 2,
    ensures
        ({
            let path = options.file_sources@[2 * state.files as int + 1]@;
            let word = options.file_sources@[2 * state.files as int]@;
            if state.found {
                &&& progress_after(options, state, ReplyView::FileRead(Ok(data))) == progress(
                    options,
                    ResolverView {
                        rule: state.rule,
                        files: state.files + 1,
                        found: false,
                        sources: state.sources.push(
                            MimeSourceView {
                                source: SourceView::Bytes(data),
                                mime_type: named_mime_type(word),
                            },
                        ),
                    },
                )
                &&& progress_after(options, state, ReplyView::FileRead(Err(cause)))
                    == ProgressView::Done(Err(SourceErrorView::FileReadError(path, cause)))
            } else {
                &&& progress_after(options, state, ReplyView::FileExists(true)) == progress(
                    options,
                    ResolverView {
                        rule: state.rule,
                        files: state.files,
                        found: true,
                        sources: state.sources,
                    },
                )
                &&& progress_after(options, state, ReplyView::FileExists(false))
                    == ProgressView::Done(Err(SourceErrorView::FileNotFound(path)))
            }
        }),
{
}

/// Once all files are read and the standard input, if it matters, is known,
/// the resolution ends in what the options resolve to.
pub proof fn law_answer_about_stdin(
    options: Options,
    state: ResolverView,
    replies: Seq<FileReplyView>,
    terminal: bool,
)
    requires
        replies.len() == options.file_sources@.len() / 2,
        state.files == replies.len(),
        forall|j: int| 0 <= j < replies.len() ==> #[trigger] replies[j] is Data,
        state.sources.len() == replies.len(),
        forall|j: int|
            0 <= j < replies.len() ==> #[trigger] state.sources[j] == (MimeSourceView {
                source: SourceView::Bytes(replies[j]->Data_0),
                mime_type: named_mime_type(options.file_sources@[2 * j]@),
            }),
    ensures
        progress_after(options, state, ReplyView::StdinIsTerminal(terminal)) == ProgressView::Done(
            resolution(options, state.rule, replies, terminal),
        ),
        progress(options, state) matches ProgressView::Done(resolved) ==> resolved == resolution(
            options,
            state.rule,
            replies,
            terminal,
        ),
{
    law_first_failure(replies);
    assert(state.sources =~= file_sources(options.file_sources@, replies));
}

/// An answer to another question than the one asked changes nothing.
pub proof fn law_stray_answers_are_ignored(options: Options, state: ResolverView, reply: ReplyView)
    requires
        match (progress(options, state), reply) {
            (
                ProgressView::Ask(RequestView::FileExists(_), _),
                ReplyView::FileExists(_),
            ) => false,
            (ProgressView::Ask(RequestView::ReadFile(_), _), ReplyView::FileRead(_)) => false,
            (
                ProgressView::Ask(RequestView::StdinIsTerminal, _),
                ReplyView::StdinIsTerminal(_),
            ) => false,
            _ => true,
        },
    ensures
        progress_after(options, state, reply) == progress(options, state),
{
}

/// Each question is answered by what is there: a file exists unless it is
/// missing, holds its data or fails with its cause, and the standard input is a
/// terminal or not.
pub proof fn law_answers_tell_the_truth(
    options: Options,
    state: ResolverView,
    replies: Seq<FileReplyView>,
    terminal: bool,
)
    ensures
        ({
            let told = answer(options, state, replies, terminal);
            let file = replies[state.files as int];
            match progress(options, state) {
                ProgressView::Ask(RequestView::FileExists(_), _) => told == ReplyView::FileExists(
                    !(file is Missing),
                ),
                ProgressView::Ask(RequestView::ReadFile(_), _) => {
                    &&& file matches FileReplyView::Data(data) ==> told == ReplyView::FileRead(
                        Ok(data),
                    )
                    &&& file matches FileReplyView::Failed(cause) ==> told == ReplyView::FileRead(
                        Err(cause),
                    )
                },
                ProgressView::Ask(RequestView::StdinIsTerminal, _) => told
                    == ReplyView::StdinIsTerminal(terminal),
                ProgressView::Done(_) => true,
            }
        }),
{
}

// Messages.

/// The message of each error names the path and the cause, where there are
/// such, in full.
pub proof fn law_messages(path: Seq<char>, cause: Seq<char>)
    ensures
        error_message(SourceErrorView::FileNotFound(path)) == "file not found: "@ + path,
        error_message(SourceErrorView::FileReadError(path, cause)) == "failed to read file '"@
            + path + "': "@ + cause,
        error_message(SourceErrorView::NoStdinConnected)
            == "--stdin requires stdin to be connected (not a TTY)"@,
        error_message(SourceErrorView::ConflictingSourceType(cause)) == cause,
{
}

// Settings.

/// Each setting follows its own option and no other; the clipboards follow the
/// two options for them.
pub proof fn law_each_setting_has_its_option(options: Options)
    ensures
        chosen_settings(options).serve_requests == (if options.paste_once {
            ServeRequests::Only(1)
        } else {
            ServeRequests::Unlimited
        }),
        chosen_settings(options).foreground,
        chosen_settings(options).trim_newline == options.trim_newline,
        chosen_settings(options).omit_additional_text_mime_types == options.no_text_fallback,
        options.seat matches Some(name) ==> chosen_settings(options).seat == SeatView::Specific(
            name@,
        ),
        options.seat is None ==> chosen_settings(options).seat == SeatView::All,
        options.primary && options.regular ==> chosen_settings(options).clipboard
            == ClipboardType::Both,
        options.primary && !options.regular ==> chosen_settings(options).clipboard
            == ClipboardType::Primary,
        !options.primary ==> chosen_settings(options).clipboard == ClipboardType::Regular,
{
}

/// The clipboards and the seat that are chosen apart are the same as those that
/// are copied to.
pub proof fn law_targets(options: Options)
    ensures
        options.seat matches Some(name) ==> chosen_seat(options) == SeatView::Specific(name@),
        options.seat is None ==> chosen_seat(options) == SeatView::All,
        options.primary && options.regular ==> chosen_clipboard(options) == ClipboardType::Both,
        options.primary && !options.regular ==> chosen_clipboard(options)
            == ClipboardType::Primary,
        !options.primary ==> chosen_clipboard(options) == ClipboardType::Regular,
{
}

/// What is copied at any time is copied as the options say: paste requests,
/// newline, text fallback, seat and clipboards.
pub proof fn law_copies_as_the_options_say(
    options: Options,
    session: SessionView,
    event: EventView,
    first: bool,
)
    ensures
        (if first {
            first_turn(options)
        } else {
            turn_after(options, session, event)
        }).command matches CommandView::Copy(settings, sources) ==> {
            &&& sources.len() > 0
            &&& settings.foreground
            &&& settings.serve_requests == (if options.paste_once {
                ServeRequests::Only(1)
            } else {
                ServeRequests::Unlimited
            })
            &&& settings.trim_newline == options.trim_newline
            &&& settings.omit_additional_text_mime_types == options.no_text_fallback
            &&& options.seat matches Some(name) ==> settings.seat == SeatView::Specific(name@)
            &&& options.seat is None ==> settings.seat == SeatView::All
            &&& options.primary && options.regular ==> settings.clipboard == ClipboardType::Both
            &&& options.primary && !options.regular ==> settings.clipboard
                == ClipboardType::Primary
            &&& !options.primary ==> settings.clipboard == ClipboardType::Regular
        },
{
}

// The course of a call.

/// A call begins with clearing, and only then, where the options say so: the
/// clipboards and the seat that they name, whatever else they hold.
pub proof fn law_clears_what_the_options_say(options: Options)
    ensures
        options.clear <==> first_turn(options).command is Clear,
        first_turn(options).command matches CommandView::Clear(clipboard, seat) ==> {
            &&& first_turn(options).session is Ending
            &&& options.seat matches Some(name) ==> seat == SeatView::Specific(name@)
            &&& options.seat is None ==> seat == SeatView::All
            &&& options.primary && options.regular ==> clipboard == ClipboardType::Both
            &&& options.primary && !options.regular ==> clipboard == ClipboardType::Primary
            &&& !options.primary ==> clipboard == ClipboardType::Regular
        },
{
}

/// A prepared copy is served at once in the foreground, and else after a fork.
/// Of the two processes the child serves it and the parent ends; where there
/// is no child the program aborts. So each prepared copy is served by exactly
/// one process, unless the fork fails.
pub proof fn law_each_copy_is_served_once(options: Options, pid: i32)
    ensures
        options.foreground ==> turn_after(options, SessionView::Preparing, EventView::Prepared)
            == (TurnView {
            session: SessionView::Ending,
            command: CommandView::Serve,
        }),
        !options.foreground ==> turn_after(options, SessionView::Preparing, EventView::Prepared)
            == (TurnView {
            session: SessionView::Forking,
            command: CommandView::Fork,
        }),
        turn_after(options, SessionView::Forking, EventView::Forked(pid)).session
            == SessionView::Ending,
        pid == 0 ==> turn_after(options, SessionView::Forking, EventView::Forked(pid)).command
            == CommandView::ServeDetached,
        pid == -1 ==> turn_after(options, SessionView::Forking, EventView::Forked(pid)).command
            == CommandView::AbortFork,
        pid != 0 && pid != -1 ==> turn_after(
            options,
            SessionView::Forking,
            EventView::Forked(pid),
        ).command == CommandView::Exit,
{
}

/// Where the last command is done, the program ends with success. An event that
/// the session does not wait for changes nothing.
pub proof fn law_ends_and_stray_events(options: Options, session: SessionView, event: EventView)
    ensures
        turn_after(options, SessionView::Ending, EventView::Finished).command == CommandView::Exit,
        turn_after(options, SessionView::Ending, EventView::Finished).session
            == SessionView::Ending,
        match session {
            SessionView::Resolving(_) => !(event is Answered),
            SessionView::Preparing => !(event is Prepared),
            SessionView::Forking => !(event is Forked),
            SessionView::Ending => !(event is Finished),
        } ==> turn_after(options, session, event).session == session && turn_after(
            options,
            session,
            event,
        ).command == CommandView::Wait,
{
}

/// While the sources are resolved, the session asks what the resolution asks.
/// It copies the sources that come of it, all of them; it fails with the
/// message of the error, or where no source comes of it.
pub proof fn law_session_follows_the_resolution(
    options: Options,
    state: ResolverView,
    reply: ReplyView,
)
    ensures
        ({
            let turn = turn_after(
                options,
                SessionView::Resolving(state),
                EventView::Answered(reply),
            );
            match progress_after(options, state, reply) {
                ProgressView::Ask(request, next) => turn.command == CommandView::Ask(request)
                    && turn.session == SessionView::Resolving(next),
                ProgressView::Done(Ok(sources)) => if sources.len() > 0 {
                    turn.session == SessionView::Preparing && (turn.command matches CommandView::Copy(
                        _,
                        copied,
                    ) && copied == sources)
                } else {
                    turn.session == SessionView::Ending && turn.command == CommandView::Fail(
                        "no data to copy (specify text, use stdin, or use --file/--literal/--stdin)"@,
                    )
                },
                ProgressView::Done(Err(error)) => turn.session == SessionView::Ending
                    && turn.command == CommandView::Fail(error_message(error)),
            }
        }),
        !options.clear ==> ({
            let turn = first_turn(options);
            match progress(options, initial_state(ImplicitStdin::UnlessSourceGiven)) {
                ProgressView::Ask(request, next) => turn.command == CommandView::Ask(request)
                    && turn.session == SessionView::Resolving(next),
                ProgressView::Done(Ok(sources)) => if sources.len() > 0 {
                    turn.session == SessionView::Preparing && (turn.command matches CommandView::Copy(
                        _,
                        copied,
                    ) && copied == sources)
                } else {
                    turn.session == SessionView::Ending && turn.command == CommandView::Fail(
                        "no data to copy (specify text, use stdin, or use --file/--literal/--stdin)"@,
                    )
                },
                ProgressView::Done(Err(error)) => turn.session == SessionView::Ending
                    && turn.command == CommandView::Fail(error_message(error)),
            }
        }),
{
}

// Models.

/// The models of MIME types and sources leave nothing out: each name and each
/// run of bytes is modelled whole.
pub proof fn law_models_of_sources(
    name: String,
    data: Vec<u8>,
    entry: MimeSource,
    sources: Seq<MimeSource>,
    replies: Seq<FileReply>,
)
    ensures
        MimeType::Autodetect@ == MimeTypeView::Autodetect,
        MimeType::Specific(name)@ == MimeTypeView::Specific(name@),
        Source::StdIn@ == SourceView::StdIn,
        Source::Bytes(data)@ == SourceView::Bytes(data@),
        entry@.source == entry.source@,
        entry@.mime_type == entry.mime_type@,
        FileReply::Missing@ == FileReplyView::Missing,
        FileReply::Failed(name)@ == FileReplyView::Failed(name@),
        FileReply::Data(data)@ == FileReplyView::Data(data@),
        source_views(sources).len() == sources.len(),
        forall|i: int| 0 <= i < sources.len() ==> #[trigger] source_views(sources)[i] == sources[i]@,
        reply_views(replies).len() == replies.len(),
        forall|i: int| 0 <= i < replies.len() ==> #[trigger] reply_views(replies)[i] == replies[i]@,
{
}

/// The models of errors and results leave nothing out.
pub proof fn law_models_of_results(
    path: String,
    cause: String,
    sources: Vec<MimeSource>,
    error: SourceError,
)
    ensures
        SourceError::FileNotFound(path)@ == SourceErrorView::FileNotFound(path@),
        SourceError::FileReadError(path, cause)@ == SourceErrorView::FileReadError(path@, cause@),
        SourceError::NoStdinConnected@ == SourceErrorView::NoStdinConnected,
        SourceError::ConflictingSourceType(cause)@ == SourceErrorView::ConflictingSourceType(
            cause@,
        ),
        resolved_view(Ok(sources)) == Ok::<_, SourceErrorView>(source_views(sources@)),
        resolved_view(Err(error)) == Err::<Seq<MimeSourceView>, _>(error@),
{
}

/// The models of questions and answers leave nothing out.
pub proof fn law_models_of_questions(
    path: String,
    data: Vec<u8>,
    yes: bool,
    request: Request,
    resolver: Resolver,
    resolved: Result<Vec<MimeSource>, SourceError>,
)
    ensures
        Request::FileExists(path)@ == RequestView::FileExists(path@),
        Request::ReadFile(path)@ == RequestView::ReadFile(path@),
        Request::StdinIsTerminal@ == RequestView::StdinIsTerminal,
        Reply::FileExists(yes)@ == ReplyView::FileExists(yes),
        Reply::FileRead(Ok(data))@ == ReplyView::FileRead(Ok(data@)),
        Reply::FileRead(Err(path))@ == ReplyView::FileRead(Err(path@)),
        Reply::StdinIsTerminal(yes)@ == ReplyView::StdinIsTerminal(yes),
        Progress::Ask(request, resolver)@ == ProgressView::Ask(request@, resolver@),
        Progress::Done(resolved)@ == ProgressView::Done(resolved_view(resolved)),
{
}

/// The models of settings leave nothing out.
pub proof fn law_models_of_settings(name: String, settings: CopySettings)
    ensures
        Seat::All@ == SeatView::All,
        Seat::Specific(name)@ == SeatView::Specific(name@),
        settings@.serve_requests == settings.serve_requests,
        settings@.foreground == settings.foreground,
        settings@.clipboard == settings.clipboard,
        settings@.trim_newline == settings.trim_newline,
        settings@.seat == settings.seat@,
        settings@.omit_additional_text_mime_types == settings.omit_additional_text_mime_types,
{
}

/// The models of commands leave nothing out.
pub proof fn law_models_of_commands(
    clipboard: ClipboardType,
    seat: Seat,
    request: Request,
    settings: CopySettings,
    sources: Vec<MimeSource>,
    message: String,
)
    ensures
        Command::Clear(clipboard, seat)@ == CommandView::Clear(clipboard, seat@),
        Command::Ask(request)@ == CommandView::Ask(request@),
        Command::Copy(settings, sources)@ == CommandView::Copy(settings@, source_views(sources@)),
        Command::Serve@ == CommandView::Serve,
        Command::Fork@ == CommandView::Fork,
        Command::ServeDetached@ == CommandView::ServeDetached,
        Command::Exit@ == CommandView::Exit,
        Command::Fail(message)@ == CommandView::Fail(message@),
        Command::AbortFork@ == CommandView::AbortFork,
        Command::Wait@ == CommandView::Wait,
{
}

/// The models of events, sessions and turns leave nothing out.
pub proof fn law_models_of_turns(reply: Reply, pid: i32, resolver: Resolver, turn: Turn)
    ensures
        Event::Answered(reply)@ == EventView::Answered(reply@),
        Event::Prepared@ == EventView::Prepared,
        Event::Forked(pid)@ == EventView::Forked(pid),
        Event::Finished@ == EventView::Finished,
        Session::Resolving(resolver)@ == SessionView::Resolving(resolver@),
        Session::Preparing@ == SessionView::Preparing,
        Session::Forking@ == SessionView::Forking,
        Session::Ending@ == SessionView::Ending,
        turn@.session == turn.session@,
        turn@.command == turn.command@,
{
}

} // verus!
