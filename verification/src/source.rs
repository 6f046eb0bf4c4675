//! The sources of copied data, and what is learnt about the files among them.

use vstd::prelude::*;

use crate::mime::{MimeType, MimeTypeView};

verus! {

/// Where copied data comes from.
#[derive(Debug)]
pub enum Source {
    /// The contents of the standard input.
    StdIn,
    /// These bytes.
    Bytes(Vec<u8>),
}

/// A source with the MIME type that it is offered under.
#[derive(Debug)]
pub struct MimeSource {
    pub source: Source,
    pub mime_type: MimeType,
}

/// What an attempt to read a file comes to.
#[derive(Debug)]
pub enum FileReply {
    /// There is no such file.
    Missing,
    /// The file is there, and reading it failed with this message.
    Failed(String),
    /// The contents of the file.
    Data(Vec<u8>),
}

/// What a [`Source`] stands for.
#[verifier::ext_equal]
pub enum SourceView {
    StdIn,
    Bytes(Seq<u8>),
}

/// What a [`MimeSource`] stands for.
#[verifier::ext_equal]
pub struct MimeSourceView {
    pub source: SourceView,
    pub mime_type: MimeTypeView,
}

/// What a [`FileReply`] stands for.
#[verifier::ext_equal]
pub enum FileReplyView {
    Missing,
    Failed(Seq<char>),
    Data(Seq<u8>),
}

impl View for Source {
    type V = SourceView;

    open spec fn view(&self) -> SourceView {
        match self {
            Source::StdIn => SourceView::StdIn,
            Source::Bytes(data) => SourceView::Bytes(data@),
        }
    }
}

impl View for MimeSource {
    type V = MimeSourceView;

    open spec fn view(&self) -> MimeSourceView {
        MimeSourceView { source: self.source@, mime_type: self.mime_type@ }
    }
}

impl View for FileReply {
    type V = FileReplyView;

    open spec fn view(&self) -> FileReplyView {
        match self {
            FileReply::Missing => FileReplyView::Missing,
            FileReply::Failed(message) => FileReplyView::Failed(message@),
            FileReply::Data(data) => FileReplyView::Data(data@),
        }
    }
}

/// What a list of sources stands for.
pub open spec fn source_views(sources: Seq<MimeSource>) -> Seq<MimeSourceView> {
    sources.map_values(|source: MimeSource| source@)
}

/// What a list of replies stands for.
pub open spec fn reply_views(replies: Seq<FileReply>) -> Seq<FileReplyView> {
    replies.map_values(|reply: FileReply| reply@)
}

} // verus!
