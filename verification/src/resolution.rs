//! The resolution of the options into the sources to copy.
//!
//! Resolution needs to know of each file whether it is there and what it
//! holds, and at times whether the standard input is a terminal. [`resolve`]
//! takes all the answers at once.

use vstd::prelude::*;
use vstd::utf8::encode_utf8;

use crate::mime::{named_mime_type, parse_mime_type, MimeType, MimeTypeView};
use crate::source::{
    reply_views, source_views, FileReply, FileReplyView, MimeSource, MimeSourceView, Source,
    SourceView,
};
use crate::wl_copy::{Options, SourceError, SourceErrorView};

verus! {

/// What keeps the standard input from being copied when no text is given.
#[derive(Clone, Copy, Debug, PartialEq, Eq, Structural)]
pub enum ImplicitStdin {
    /// Only the option that names the standard input itself.
    UnlessStdinGiven,
    /// Any option that names a source.
    UnlessSourceGiven,
}

/// How many pairs the arguments of a repeated two-value option make. An
/// argument that is left over makes none.
pub open spec fn pair_count(args: Seq<String>) -> nat {
    args.len() / 2
}

/// The MIME type that the pair at `i` names.
pub open spec fn pair_mime_type(args: Seq<String>, i: int) -> MimeTypeView {
    named_mime_type(args[2 * i]@)
}

/// The path or the string that the pair at `i` holds.
pub open spec fn pair_value(args: Seq<String>, i: int) -> Seq<char> {
    args[2 * i + 1]@
}

/// The position of the first reply that brings no data.
pub open spec fn first_failure(replies: Seq<FileReplyView>) -> Option<nat>
    decreases replies.len(),
{
    if replies.len() == 0 {
        None
    } else {
        match first_failure(replies.drop_last()) {
            Some(i) => Some(i),
            None => if replies.last() is Data {
                None
            } else {
                Some((replies.len() - 1) as nat)
            },
        }
    }
}

/// There is a reply for each pair of the file arguments, or for each up to one
/// that brings no data.
pub open spec fn answers_files(args: Seq<String>, replies: Seq<FileReplyView>) -> bool {
    replies.len() == pair_count(args) || (replies.len() < pair_count(args) && first_failure(replies)
        is Some)
}

/// The error that a reply without data stands for.
pub open spec fn file_error(path: Seq<char>, reply: FileReplyView) -> SourceErrorView {
    match reply {
        FileReplyView::Failed(cause) => SourceErrorView::FileReadError(path, cause),
        _ => SourceErrorView::FileNotFound(path),
    }
}

/// The source that the pair at `i` of the file arguments becomes.
pub open spec fn file_source(args: Seq<String>, i: int, data: Seq<u8>) -> MimeSourceView {
    MimeSourceView { source: SourceView::Bytes(data), mime_type: pair_mime_type(args, i) }
}

/// The sources that the file arguments become, when each file could be read.
pub open spec fn file_sources(args: Seq<String>, replies: Seq<FileReplyView>) -> Seq<
    MimeSourceView,
> {
    Seq::new(pair_count(args), |i: int| file_source(args, i, replies[i]->Data_0))
}

/// The source that the option for the standard input becomes, if it is given.
pub open spec fn stdin_sources(options: Options) -> Seq<MimeSourceView> {
    match options.stdin_source {
        Some(word) => seq![
            MimeSourceView { source: SourceView::StdIn, mime_type: named_mime_type(word@) },
        ],
        None => seq![],
    }
}

/// The sources that the literal arguments become.
pub open spec fn literal_sources(args: Seq<String>) -> Seq<MimeSourceView> {
    Seq::new(
        pair_count(args),
        |i: int|
            MimeSourceView {
                source: SourceView::Bytes(encode_utf8(pair_value(args, i))),
                mime_type: pair_mime_type(args, i),
            },
    )
}

/// The text arguments, with a space between each two.
pub open spec fn joined(text: Seq<Vec<u8>>) -> Seq<u8>
    decreases text.len(),
{
    if text.len() == 0 {
        seq![]
    } else if text.len() == 1 {
        text[0]@
    } else {
        joined(text.drop_last()) + seq![0x20u8] + text.last()@
    }
}

/// The MIME type of the default input.
pub open spec fn default_mime_type(options: Options) -> MimeTypeView {
    match options.mime_type {
        Some(word) => named_mime_type(word@),
        None => MimeTypeView::Autodetect,
    }
}

/// The options leave it to the standard input to be copied, if it is connected.
pub open spec fn wants_implicit_stdin(options: Options, rule: ImplicitStdin) -> bool {
    &&& options.text@.len() == 0
    &&& options.stdin_source is None
    &&& rule is UnlessSourceGiven ==> options.file_sources@.len() == 0
        && options.literal_sources@.len() == 0
}

/// The source that the default input becomes, if there is one.
pub open spec fn default_sources(options: Options, rule: ImplicitStdin, terminal: bool) -> Seq<
    MimeSourceView,
> {
    if options.text@.len() > 0 {
        seq![
            MimeSourceView {
                source: SourceView::Bytes(joined(options.text@)),
                mime_type: default_mime_type(options),
            },
        ]
    } else if wants_implicit_stdin(options, rule) && !terminal {
        seq![MimeSourceView { source: SourceView::StdIn, mime_type: default_mime_type(options) }]
    } else {
        seq![]
    }
}

/// The sources that follow those of the files.
pub open spec fn later_sources(options: Options, rule: ImplicitStdin, terminal: bool) -> Seq<
    MimeSourceView,
> {
    stdin_sources(options) + literal_sources(options.literal_sources@) + default_sources(
        options,
        rule,
        terminal,
    )
}

/// What the options resolve to, given the reply for each pair of the file
/// arguments and whether the standard input is a terminal.
///
/// The first file that could not be read is the error. If all could, the
/// option for the standard input is an error where that is a terminal. Else
/// the sources are those of the files, of the standard input, of the literals
/// and of the default input, in this order.
pub open spec fn resolution(
    options: Options,
    rule: ImplicitStdin,
    replies: Seq<FileReplyView>,
    terminal: bool,
) -> Result<Seq<MimeSourceView>, SourceErrorView> {
    match first_failure(replies) {
        Some(i) => Err(
            file_error(pair_value(options.file_sources@, i as int), replies[i as int]),
        ),
        None => if options.stdin_source is Some && terminal {
            Err(SourceErrorView::NoStdinConnected)
        } else {
            Ok(
                file_sources(options.file_sources@, replies) + later_sources(
                    options,
                    rule,
                    terminal,
                ),
            )
        },
    }
}

/// What the result of a resolution stands for.
pub open spec fn resolved_view(resolved: Result<Vec<MimeSource>, SourceError>) -> Result<
    Seq<MimeSourceView>,
    SourceErrorView,
> {
    match resolved {
        Ok(sources) => Ok(source_views(sources@)),
        Err(error) => Err(error@),
    }
}

/// Joins the text arguments with spaces.
fn join_text(text: &Vec<Vec<u8>>) -> (data: Vec<u8>)
    ensures
        data@ == joined(text@),
{
    let mut data: Vec<u8> = Vec::new();
    for i in 0..text.len()
        invariant
            data@ == joined(text@.take(i as int)),
    {
        if i > 0 {
            data.push(0x20u8);
        }
        data.extend_from_slice(text[i].as_slice());
        assert(text@.take(i + 1).drop_last() == text@.take(i as int));
    }
    assert(text@.take(text@.len() as int) == text@);
    data
}

/// The MIME type of the default input.
fn choose_default_mime_type(options: &Options) -> (mime_type: MimeType)
    ensures
        mime_type@ == default_mime_type(*options),
{
    match &options.mime_type {
        Some(word) => parse_mime_type(word.as_str()),
        None => MimeType::Autodetect,
    }
}

/// Whether the standard input is to be copied without being named.
pub(crate) fn takes_implicit_stdin(options: &Options, rule: ImplicitStdin) -> (takes: bool)
    ensures
        takes == wants_implicit_stdin(*options, rule),
{
    options.text.len() == 0 && options.stdin_source.is_none() && match rule {
        ImplicitStdin::UnlessStdinGiven => true,
        ImplicitStdin::UnlessSourceGiven => options.file_sources.len() == 0
            && options.literal_sources.len() == 0,
    }
}

/// Adds one source.
pub(crate) fn add_source(sources: &mut Vec<MimeSource>, source: Source, mime_type: MimeType)
    ensures
        source_views(final(sources)@) == source_views(old(sources)@).push(
            MimeSourceView { source: source@, mime_type: mime_type@ },
        ),
{
    let ghost before = sources@;
    sources.push(MimeSource { source, mime_type });
    assert(source_views(sources@) =~= source_views(before).push(
        MimeSourceView { source: source@, mime_type: mime_type@ },
    ));
}

/// Adds the sources that follow those of the files.
pub(crate) fn append_later_sources(
    options: &Options,
    rule: ImplicitStdin,
    terminal: bool,
    sources: Vec<MimeSource>,
) -> (all: Vec<MimeSource>)
    ensures
        source_views(all@) == source_views(sources@) + later_sources(*options, rule, terminal),
{
    let mut all = sources;
    match &options.stdin_source {
        Some(word) => {
            add_source(&mut all, Source::StdIn, parse_mime_type(word.as_str()));
        },
        None => {},
    }
    let ghost before = source_views(all@);
    assert(before =~= source_views(sources@) + stdin_sources(*options));

    let args = &options.literal_sources;
    let ghost literals = literal_sources(args@);
    assert(before + literals.take(0) =~= before);
    for i in 0..args.len() / 2
        invariant
            literals == literal_sources(args@),
            source_views(all@) == before + literals.take(i as int),
    {
        let data = args[2 * i + 1].as_str().as_bytes_vec();
        add_source(&mut all, Source::Bytes(data), parse_mime_type(args[2 * i].as_str()));
        assert(before + literals.take(i + 1) =~= (before + literals.take(i as int)).push(
            literals[i as int],
        ));
    }
    assert(literals.take(literals.len() as int) =~= literals);

    if options.text.len() > 0 {
        let data = join_text(&options.text);
        add_source(&mut all, Source::Bytes(data), choose_default_mime_type(options));
    } else if takes_implicit_stdin(options, rule) && !terminal {
        add_source(&mut all, Source::StdIn, choose_default_mime_type(options));
    }
    assert(source_views(all@) =~= before + literals + default_sources(*options, rule, terminal));
    assert(source_views(all@) =~= source_views(sources@) + later_sources(*options, rule, terminal));
    all
}

/// Resolves the options, given what reading the files came to and whether the
/// standard input is a terminal.
pub fn resolve(
    options: &Options,
    rule: ImplicitStdin,
    replies: Vec<FileReply>,
    terminal: bool,
) -> (resolved: Result<Vec<MimeSource>, SourceError>)
    requires
        answers_files(options.file_sources@, reply_views(replies@)),
    ensures
        resolved_view(resolved) == resolution(*options, rule, reply_views(replies@), terminal),
{
    let ghost views = reply_views(replies@);
    let args = &options.file_sources;
    let ghost wanted = file_sources(args@, views);
    let mut sources: Vec<MimeSource> = Vec::new();
    let mut i: usize = 0;
    assert(source_views(sources@) =~= wanted.take(0));
    for reply in iter: replies
        invariant
            args == &options.file_sources,
            views == reply_views(iter.seq()),
            views.len() <= pair_count(args@),
            wanted == file_sources(args@, views),
            i == iter.index(),
            source_views(sources@) == wanted.take(i as int),
            forall|j: int| 0 <= j < i ==> views[j] is Data,
    {
        assert(views[i as int] == reply@);
        assert(2 * i + 1 < args.len());
        match reply {
            FileReply::Data(data) => {
                add_source(
                    &mut sources,
                    Source::Bytes(data),
                    parse_mime_type(args[2 * i].as_str()),
                );
                assert(wanted.take(i + 1) =~= wanted.take(i as int).push(wanted[i as int]));
            },
            FileReply::Missing => {
                proof {
                    lemma_first_failure(views, i as nat);
                }
                return Err(SourceError::FileNotFound(args[2 * i + 1].clone()));
            },
            FileReply::Failed(cause) => {
                proof {
                    lemma_first_failure(views, i as nat);
                }
                return Err(SourceError::FileReadError(args[2 * i + 1].clone(), cause));
            },
        }
        i = i + 1;
    }
    proof {
        law_first_failure(views);
        assert(wanted.take(wanted.len() as int) =~= wanted);
    }
    if options.stdin_source.is_some() && terminal {
        return Err(SourceError::NoStdinConnected);
    }
    Ok(append_later_sources(options, rule, terminal, sources))
}

/// The first failure is a reply without data, and each reply before it has
/// data; there is none where each reply has data.
pub proof fn law_first_failure(replies: Seq<FileReplyView>)
    ensures
        match first_failure(replies) {
            Some(i) => i < replies.len() && !(replies[i as int] is Data) && forall|j: int|
                0 <= j < i ==> #[trigger] replies[j] is Data,
            None => forall|j: int| 0 <= j < replies.len() ==> #[trigger] replies[j] is Data,
        },
    decreases replies.len(),
{
    if replies.len() > 0 {
        let rest = replies.drop_last();
        law_first_failure(rest);
        assert(forall|j: int| 0 <= j < rest.len() ==> rest[j] == #[trigger] replies[j]);
    }
}

/// A reply without data that only data comes before is the first failure.
pub(crate) proof fn lemma_first_failure(replies: Seq<FileReplyView>, i: nat)
    requires
        i < replies.len(),
        !(replies[i as int] is Data),
        forall|j: int| 0 <= j < i ==> #[trigger] replies[j] is Data,
    ensures
        first_failure(replies) == Some(i),
{
    law_first_failure(replies);
}

} // verus!
