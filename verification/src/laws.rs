//! What holds of the library as a whole.

use vstd::prelude::*;

use crate::mime::{named_mime_type, same_letter, same_text, MimeTypeView};
use crate::program::{chosen_clipboard, chosen_seat, chosen_settings};
use crate::resolution::{
    default_mime_type, default_sources, file_source, file_sources, first_failure, joined,
    later_sources, law_first_failure, lemma_first_failure, literal_sources, pair_count, pair_value,
    resolution, stdin_sources, wants_implicit_stdin, ImplicitStdin,
};
use crate::resolver::{
    answer, depends_on_stdin, initial_state, progress, progress_after, requests_left,
    requests_made, run, ProgressView, ResolverView,
};
use crate::session::{
    first_turn, no_data_message, turn_after, turn_at, turn_when_resolved, CommandView, EventView,
    SessionView,
};
use crate::source::{FileReplyView, MimeSourceView, SourceView};
use crate::wl_copy::{error_message, Options, SourceErrorView};

verus! {

/// Words that differ only in the case of ASCII letters ask for detection
/// alike.
pub proof fn law_auto_in_any_case(a: Seq<char>, b: Seq<char>)
    requires
        same_text(a, b),
    ensures
        named_mime_type(a) is Autodetect <==> named_mime_type(b) is Autodetect,
{
    let auto = "auto"@;
    if same_text(a, auto) {
        assert forall|i: int| 0 <= i < b.len() implies same_letter(#[trigger] b[i], auto[i]) by {
            assert(same_letter(a[i], b[i]));
            assert(same_letter(a[i], auto[i]));
        }
    }
    if same_text(b, auto) {
        assert forall|i: int| 0 <= i < a.len() implies same_letter(#[trigger] a[i], auto[i]) by {
            assert(same_letter(a[i], b[i]));
            assert(same_letter(b[i], auto[i]));
        }
    }
}

/// A MIME type that is not `auto` is offered letter for letter as it was
/// written.
pub proof fn law_specific_is_verbatim(word: Seq<char>)
    ensures
        named_mime_type(word) matches MimeTypeView::Specific(name) ==> name == word,
        named_mime_type(word) is Autodetect ==> word.len() == 4,
{
    reveal_strlit("auto");
}

/// Resolution succeeds exactly where each file could be read and the standard
/// input, if an option names it, is connected.
pub proof fn law_success(
    options: Options,
    rule: ImplicitStdin,
    replies: Seq<FileReplyView>,
    terminal: bool,
)
    ensures
        resolution(options, rule, replies, terminal) is Ok <==> {
            &&& forall|i: int| 0 <= i < replies.len() ==> #[trigger] replies[i] is Data
            &&& !(options.stdin_source is Some && terminal)
        },
{
    law_first_failure(replies);
}

/// The error is that of the first file that could not be read, whatever comes
/// of the files after it.
pub proof fn law_first_bad_file_decides(
    options: Options,
    rule: ImplicitStdin,
    replies: Seq<FileReplyView>,
    terminal: bool,
    i: int,
)
    requires
        0 <= i < replies.len(),
        !(replies[i] is Data),
        forall|j: int| 0 <= j < i ==> #[trigger] replies[j] is Data,
    ensures
        resolution(options, rule, replies, terminal) == Err::<Seq<MimeSourceView>, _>(
            match replies[i] {
                FileReplyView::Failed(cause) => SourceErrorView::FileReadError(
                    pair_value(options.file_sources@, i),
                    cause,
                ),
                _ => SourceErrorView::FileNotFound(pair_value(options.file_sources@, i)),
            },
        ),
{
    lemma_first_failure(replies, i as nat);
}

/// Resolution never finds that source specifications conflict.
pub proof fn law_no_conflict(
    options: Options,
    rule: ImplicitStdin,
    replies: Seq<FileReplyView>,
    terminal: bool,
)
    ensures
        resolution(options, rule, replies, terminal) matches Err(error) ==> !(error
            is ConflictingSourceType),
{
}

/// The sources come in the order of files, standard input, literals and
/// default input, each group in the order of its arguments, and none is
/// dropped or merged with another.
pub proof fn law_source_order(
    options: Options,
    rule: ImplicitStdin,
    replies: Seq<FileReplyView>,
    terminal: bool,
)
    requires
        replies.len() == pair_count(options.file_sources@),
    ensures
        resolution(options, rule, replies, terminal) matches Ok(sources) ==> {
            let files = pair_count(options.file_sources@) as int;
            let after_stdin = files + stdin_sources(options).len();
            let after_literals = after_stdin + pair_count(options.literal_sources@);
            &&& sources.len() == after_literals + default_sources(options, rule, terminal).len()
            &&& forall|i: int|
                0 <= i < files ==> #[trigger] sources[i] == file_source(
                    options.file_sources@,
                    i,
                    replies[i]->Data_0,
                )
            &&& forall|i: int|
                files <= i < after_stdin ==> #[trigger] sources[i] == stdin_sources(options)[i
                    - files]
            &&& forall|i: int|
                after_stdin <= i < after_literals ==> #[trigger] sources[i] == literal_sources(
                    options.literal_sources@,
                )[i - after_stdin]
            &&& forall|i: int|
                after_literals <= i < sources.len() ==> #[trigger] sources[i] == default_sources(
                    options,
                    rule,
                    terminal,
                )[i - after_literals]
        },
{
}

/// The standard input is at most one of the sources.
pub proof fn law_stdin_at_most_once(
    options: Options,
    rule: ImplicitStdin,
    replies: Seq<FileReplyView>,
    terminal: bool,
)
    ensures
        resolution(options, rule, replies, terminal) matches Ok(sources) ==> forall|i: int, j: int|
            #![trigger sources[i], sources[j]]
            0 <= i < sources.len() && 0 <= j < sources.len() && sources[i].source is StdIn
                && sources[j].source is StdIn ==> i == j,
{
}

/// There is nothing to copy exactly where no option names a source, no text is
/// given, and the standard input is not connected or an option that names
/// sources keeps it out.
pub proof fn law_nothing_to_copy(
    options: Options,
    rule: ImplicitStdin,
    replies: Seq<FileReplyView>,
    terminal: bool,
)
    requires
        replies.len() == pair_count(options.file_sources@),
    ensures
        resolution(options, rule, replies, terminal) == Ok::<_, SourceErrorView>(
            Seq::<MimeSourceView>::empty(),
        ) <==> {
            &&& pair_count(options.file_sources@) == 0
            &&& pair_count(options.literal_sources@) == 0
            &&& options.stdin_source is None
            &&& options.text@.len() == 0
            &&& terminal || !wants_implicit_stdin(options, rule)
        },
{
    law_first_failure(replies);
    let files = file_sources(options.file_sources@, replies);
    let later = later_sources(options, rule, terminal);
    assert(later.len() == stdin_sources(options).len() + pair_count(options.literal_sources@)
        + default_sources(options, rule, terminal).len());
    if files.len() + later.len() == 0 {
        assert(files + later =~= Seq::<MimeSourceView>::empty());
    }
}

/// Where the outcome does not depend on the standard input, it is the same
/// whether that is a terminal or not.
pub proof fn law_stdin_matters_only_if_asked(
    options: Options,
    rule: ImplicitStdin,
    replies: Seq<FileReplyView>,
)
    requires
        !depends_on_stdin(options, rule),
    ensures
        resolution(options, rule, replies, true) == resolution(options, rule, replies, false),
{
}

/// The two rules differ only where a file or a literal is given, no text and
/// no option for the standard input are, and the standard input is connected:
/// there the more generous one adds it as the last source.
pub proof fn law_rules_compared(options: Options, replies: Seq<FileReplyView>, terminal: bool)
    ensures
        ({
            let generous = resolution(options, ImplicitStdin::UnlessStdinGiven, replies, terminal);
            let strict = resolution(options, ImplicitStdin::UnlessSourceGiven, replies, terminal);
            if options.text@.len() == 0 && options.stdin_source is None && !terminal && (
            options.file_sources@.len() > 0 || options.literal_sources@.len() > 0) {
                match strict {
                    Ok(sources) => generous == Ok::<_, SourceErrorView>(
                        sources.push(
                            MimeSourceView {
                                source: SourceView::StdIn,
                                mime_type: default_mime_type(options),
                            },
                        ),
                    ),
                    Err(error) => generous == strict,
                }
            } else {
                generous == strict
            }
        }),
{
    let generous = ImplicitStdin::UnlessStdinGiven;
    let strict = ImplicitStdin::UnlessSourceGiven;
    let stdin = MimeSourceView { source: SourceView::StdIn, mime_type: default_mime_type(options) };
    let files = file_sources(options.file_sources@, replies);
    if default_sources(options, generous, terminal) != default_sources(options, strict, terminal) {
        assert(files + later_sources(options, generous, terminal) =~= (files + later_sources(
            options,
            strict,
            terminal,
        )).push(stdin));
    }
}

/// The options name the same sources, but for the MIME type of the default
/// input.
pub open spec fn same_but_for_type(a: Options, b: Options) -> bool {
    &&& a.file_sources@ == b.file_sources@
    &&& a.stdin_source == b.stdin_source
    &&& a.literal_sources@ == b.literal_sources@
    &&& a.text@ == b.text@
}

/// The MIME type option bears on the default input alone: sources that other
/// options name keep their own MIME types.
pub proof fn law_type_option_is_for_default_input(
    a: Options,
    b: Options,
    rule: ImplicitStdin,
    replies: Seq<FileReplyView>,
    terminal: bool,
)
    requires
        same_but_for_type(a, b),
    ensures
        match (resolution(a, rule, replies, terminal), resolution(b, rule, replies, terminal)) {
            (Ok(x), Ok(y)) => {
                &&& x.len() == y.len()
                &&& forall|i: int|
                    #![trigger x[i]]
                    #![trigger y[i]]
                    0 <= i < x.len() ==> x[i].source == y[i].source
                &&& forall|i: int|
                    #![trigger x[i]]
                    #![trigger y[i]]
                    0 <= i < x.len() - default_sources(a, rule, terminal).len() ==> x[i] == y[i]
            },
            (Err(x), Err(y)) => x == y,
            _ => false,
        },
{
}

/// `longer` is `args`, or pairs up as `args` does with one argument left over.
pub open spec fn adds_unpaired(args: Seq<String>, longer: Seq<String>) -> bool {
    longer == args || (args.len() % 2 == 0 && longer.len() == args.len() + 1 && longer.drop_last()
        == args)
}

/// An argument that is left over from the pairs changes nothing, but that
/// where any source keeps the standard input out it counts as one.
pub proof fn law_unpaired_argument_is_ignored(
    a: Options,
    b: Options,
    rule: ImplicitStdin,
    replies: Seq<FileReplyView>,
    terminal: bool,
)
    requires
        adds_unpaired(a.file_sources@, b.file_sources@),
        adds_unpaired(a.literal_sources@, b.literal_sources@),
        b.stdin_source == a.stdin_source,
        b.mime_type == a.mime_type,
        b.text@ == a.text@,
        terminal || wants_implicit_stdin(a, rule) == wants_implicit_stdin(b, rule),
        replies.len() == pair_count(a.file_sources@),
    ensures
        resolution(b, rule, replies, terminal) == resolution(a, rule, replies, terminal),
{
    law_first_failure(replies);
    assert(forall|i: int|
        0 <= i < a.file_sources@.len() ==> #[trigger] b.file_sources@[i] == a.file_sources@[i]);
    assert(forall|i: int|
        0 <= i < a.literal_sources@.len() ==> #[trigger] b.literal_sources@[i]
            == a.literal_sources@[i]);
    assert(literal_sources(b.literal_sources@) =~= literal_sources(a.literal_sources@));
    assert(file_sources(b.file_sources@, replies) =~= file_sources(a.file_sources@, replies));
}

/// The joined text of two runs of arguments is their joined texts with a space
/// between.
pub proof fn law_joined_in_parts(a: Seq<Vec<u8>>, b: Seq<Vec<u8>>)
    requires
        a.len() > 0,
        b.len() > 0,
    ensures
        joined(a + b) == joined(a) + seq![0x20u8] + joined(b),
    decreases b.len(),
{
    assert((a + b).drop_last() =~= a + b.drop_last());
    if b.len() == 1 {
        assert(a + b.drop_last() =~= a);
    } else {
        law_joined_in_parts(a, b.drop_last());
        assert(joined(a + b) =~= joined(a) + seq![0x20u8] + joined(b));
    }
}

/// A resolution that is answered request by request ends in what the options
/// resolve to.
pub proof fn law_run_is_resolution(
    options: Options,
    rule: ImplicitStdin,
    replies: Seq<FileReplyView>,
    terminal: bool,
)
    requires
        replies.len() == pair_count(options.file_sources@),
    ensures
        run(options, initial_state(rule), replies, terminal) == resolution(
            options,
            rule,
            replies,
            terminal,
        ),
{
    let state = initial_state(rule);
    assert(state.sources =~= file_sources(options.file_sources@, replies).take(0));
    lemma_run(options, state, replies, terminal);
}

/// The state that is reached when the files before the next one have been read.
pub open spec fn has_read(
    options: Options,
    state: ResolverView,
    replies: Seq<FileReplyView>,
) -> bool {
    &&& state.files <= replies.len()
    &&& forall|i: int| 0 <= i < state.files ==> #[trigger] replies[i] is Data
    &&& state.sources == file_sources(options.file_sources@, replies).take(state.files as int)
    &&& state.found ==> state.files < replies.len() && !(replies[state.files as int] is Missing)
}

proof fn lemma_run(
    options: Options,
    state: ResolverView,
    replies: Seq<FileReplyView>,
    terminal: bool,
)
    requires
        replies.len() == pair_count(options.file_sources@),
        has_read(options, state, replies),
    ensures
        run(options, state, replies, terminal) == resolution(
            options,
            state.rule,
            replies,
            terminal,
        ),
    decreases requests_left(options, state),
{
    let wanted = file_sources(options.file_sources@, replies);
    if state.files < replies.len() {
        let i = state.files as int;
        if !(replies[i] is Data) {
            lemma_first_failure(replies, state.files);
        }
        assert(wanted.take(i + 1) =~= wanted.take(i).push(wanted[i]));
        match progress_after(options, state, answer(options, state, replies, terminal)) {
            ProgressView::Ask(_, next) => {
                lemma_run(options, next, replies, terminal);
            },
            ProgressView::Done(_) => {
                law_first_failure(replies);
                assert(wanted.take(wanted.len() as int) =~= wanted);
            },
        }
    } else {
        law_first_failure(replies);
        assert(wanted.take(wanted.len() as int) =~= wanted);
    }
}

/// A resolution asks no more than it needs: of each file up to the first bad
/// one whether it exists, and then what it holds; and once, after all files,
/// about the standard input, if the outcome depends on it.
pub proof fn law_requests_made(
    options: Options,
    rule: ImplicitStdin,
    replies: Seq<FileReplyView>,
    terminal: bool,
)
    requires
        replies.len() == pair_count(options.file_sources@),
    ensures
        requests_made(options, initial_state(rule), replies, terminal) == requests_needed(
            options,
            rule,
            replies,
        ),
{
    let state = initial_state(rule);
    assert(state.sources =~= file_sources(options.file_sources@, replies).take(0));
    lemma_requests_made(options, state, replies, terminal);
}

/// How many requests it takes to resolve the options.
pub open spec fn requests_needed(
    options: Options,
    rule: ImplicitStdin,
    replies: Seq<FileReplyView>,
) -> nat {
    match first_failure(replies) {
        Some(i) => if replies[i as int] is Missing {
            2 * i + 1
        } else {
            2 * i + 2
        },
        None => if depends_on_stdin(options, rule) {
            2 * replies.len() + 1
        } else {
            2 * replies.len()
        },
    }
}

proof fn lemma_requests_made(
    options: Options,
    state: ResolverView,
    replies: Seq<FileReplyView>,
    terminal: bool,
)
    requires
        replies.len() == pair_count(options.file_sources@),
        has_read(options, state, replies),
    ensures
        requests_made(options, state, replies, terminal) == requests_needed(
            options,
            state.rule,
            replies,
        ) - 2 * state.files - if state.found {
            1int
        } else {
            0int
        },
    decreases requests_left(options, state),
{
    let wanted = file_sources(options.file_sources@, replies);
    law_first_failure(replies);
    if state.files < replies.len() {
        let i = state.files as int;
        if !(replies[i] is Data) {
            lemma_first_failure(replies, state.files);
        }
        assert(wanted.take(i + 1) =~= wanted.take(i).push(wanted[i]));
        match progress_after(options, state, answer(options, state, replies, terminal)) {
            ProgressView::Ask(_, next) => {
                lemma_requests_made(options, next, replies, terminal);
            },
            ProgressView::Done(_) => {},
        }
    }
}

/// The program copies what its options resolve to, with the settings that they
/// choose; it fails with the message of
/// the error where that is one, and where there is nothing to copy.
pub proof fn law_program_copies_what_resolves(
    options: Options,
    replies: Seq<FileReplyView>,
    terminal: bool,
)
    requires
        !options.clear,
        replies.len() == pair_count(options.file_sources@),
    ensures
        turn_when_resolved(options, first_turn(options), replies, terminal).command == match resolution(
            options,
            ImplicitStdin::UnlessSourceGiven,
            replies,
            terminal,
        ) {
            Ok(sources) => if sources.len() > 0 {
                CommandView::Copy(chosen_settings(options), sources)
            } else {
                CommandView::Fail(no_data_message())
            },
            Err(error) => CommandView::Fail(error_message(error)),
        },
{
    let state = initial_state(ImplicitStdin::UnlessSourceGiven);
    law_run_is_resolution(options, ImplicitStdin::UnlessSourceGiven, replies, terminal);
    lemma_turn_when_resolved(options, state, replies, terminal);
}

proof fn lemma_turn_when_resolved(
    options: Options,
    state: ResolverView,
    replies: Seq<FileReplyView>,
    terminal: bool,
)
    ensures
        turn_when_resolved(options, turn_at(options, progress(options, state)), replies, terminal)
            == turn_at(options, ProgressView::Done(run(options, state, replies, terminal))),
    decreases requests_left(options, state),
{
    reveal_with_fuel(turn_when_resolved, 2);
    match progress(options, state) {
        ProgressView::Done(_) => {},
        ProgressView::Ask(_, _) => {
            let reached = progress_after(
                options,
                state,
                answer(options, state, replies, terminal),
            );
            match reached {
                ProgressView::Done(_) => {},
                ProgressView::Ask(_, next) => {
                    assert(reached == progress(options, next));
                    lemma_turn_when_resolved(options, next, replies, terminal);
                },
            }
        },
    }
}

/// To clear is all that the program does where it is told to, whatever sources
/// the options name.
pub proof fn law_clear_is_all(options: Options, event: EventView)
    requires
        options.clear,
    ensures
        first_turn(options).command == CommandView::Clear(
            chosen_clipboard(options),
            chosen_seat(options),
        ),
        ({
            let next = turn_after(options, first_turn(options).session, event);
            &&& next.session is Ending
            &&& next.command is Exit || next.command is Wait
        }),
{
}

/// The program never prepares to copy nothing, and whatever it copies, it
/// copies with the settings that its options choose.
pub proof fn law_copies_something(options: Options, session: SessionView, event: EventView)
    ensures
        first_turn(options).command matches CommandView::Copy(settings, sources) ==> settings
            == chosen_settings(options) && sources.len() > 0,
        turn_after(options, session, event).command matches CommandView::Copy(settings, sources)
            ==> settings == chosen_settings(options) && sources.len() > 0,
{
}

/// The program forks only where it is not to stay in the foreground, and
/// serves paste requests in the first process only where it is.
pub proof fn law_foreground_never_forks(options: Options, session: SessionView, event: EventView)
    ensures
        !(first_turn(options).command is Fork),
        turn_after(options, session, event).command is Fork ==> !options.foreground,
        turn_after(options, session, event).session is Forking && !(session is Forking)
            ==> !options.foreground,
        turn_after(options, session, event).command is Serve ==> options.foreground,
{
}

/// The regular clipboard is chosen beside the primary one where both are asked
/// for; asking for it alone is the same as asking for none.
pub proof fn law_regular_needs_primary(a: Options, b: Options)
    requires
        a.primary == b.primary,
    ensures
        a.primary && a.regular ==> chosen_clipboard(a) is Both,
        !a.primary ==> chosen_clipboard(a) == chosen_clipboard(b),
        chosen_clipboard(a) is Regular <==> !a.primary,
{
}

/// Paste requests are served in the foreground, which a copy that is prepared
/// before a fork has to be.
pub proof fn law_served_in_foreground(options: Options)
    ensures
        chosen_settings(options).foreground,
{
}

} // verus!
