//! The command line of `wl-copy`, and the sources that it names.

use vstd::prelude::*;

use crate::resolution::{answers_files, resolution, resolve, resolved_view, ImplicitStdin};
use crate::source::{reply_views, FileReply, MimeSource};

verus! {

/// The options that `wl-copy` is called with.
#[derive(Debug)]
pub struct Options {
    /// Serve only a single paste request and then exit
    ///
    /// This option effectively clears the clipboard after the first paste. It can be used when
    /// copying e.g. sensitive data, like passwords. Note however that certain apps may have issues
    /// pasting when this option is used, in particular XWayland clients are known to suffer from
    /// this.
    pub paste_once: bool,
    /// Stay in the foreground instead of forking
    pub foreground: bool,
    /// Clear the clipboard instead of copying
    pub clear: bool,
    /// Use the "primary" clipboard
    ///
    /// Copying to the "primary" clipboard requires the compositor to support the data-control
    /// protocol of version 2 or above.
    pub primary: bool,
    /// Use the regular clipboard
    ///
    /// Set this flag together with --primary to operate on both clipboards at once. Has no effect
    /// otherwise (since the regular clipboard is the default clipboard).
    pub regular: bool,
    /// Trim the trailing newline character before copying
    ///
    /// This flag is only applied for text MIME types.
    pub trim_newline: bool,
    /// Pick the seat to work with
    ///
    /// By default wl-copy operates on all seats at once.
    pub seat: Option<String>,
    /// Override the inferred MIME type for the content
    pub mime_type: Option<String>,
    /// Add a file as a MIME source
    ///
    /// MIME types (or "auto" for auto-detection) and file paths, in turn.
    pub file_sources: Vec<String>,
    /// Add stdin as a MIME source
    ///
    /// The MIME type (or "auto" for auto-detection).
    pub stdin_source: Option<String>,
    /// Add a literal string as a MIME source
    ///
    /// MIME types and literal strings, in turn.
    pub literal_sources: Vec<String>,
    /// Disable automatic text MIME type fallbacks
    ///
    /// By default, when copying text, additional MIME types like text/plain, UTF8_STRING,
    /// STRING, and TEXT are automatically offered. This flag disables that behavior.
    pub no_text_fallback: bool,
    /// Text to copy, as the bytes of each argument
    ///
    /// If not specified, wl-copy will use data from the standard input.
    pub text: Vec<Vec<u8>>,
    /// Enable verbose logging
    pub verbose: u8,
}

/// Errors that can occur during source resolution.
#[derive(Debug)]
pub enum SourceError {
    /// File does not exist
    FileNotFound(String),
    /// Failed to read file: its path, and the message of the I/O error
    FileReadError(String, String),
    /// --stdin used with no stdin connected
    NoStdinConnected,
    /// Multiple conflicting source specifications
    ConflictingSourceType(String),
}

/// What a [`SourceError`] stands for.
#[verifier::ext_equal]
pub enum SourceErrorView {
    FileNotFound(Seq<char>),
    FileReadError(Seq<char>, Seq<char>),
    NoStdinConnected,
    ConflictingSourceType(Seq<char>),
}

impl View for SourceError {
    type V = SourceErrorView;

    open spec fn view(&self) -> SourceErrorView {
        match self {
            SourceError::FileNotFound(path) => SourceErrorView::FileNotFound(path@),
            SourceError::FileReadError(path, cause) => {
                SourceErrorView::FileReadError(path@, cause@)
            },
            SourceError::NoStdinConnected => SourceErrorView::NoStdinConnected,
            SourceError::ConflictingSourceType(text) => {
                SourceErrorView::ConflictingSourceType(text@)
            },
        }
    }
}

/// The message that an error is reported with.
pub open spec fn error_message(error: SourceErrorView) -> Seq<char> {
    match error {
        SourceErrorView::FileNotFound(path) => "file not found: "@ + path,
        SourceErrorView::FileReadError(path, cause) => {
            "failed to read file '"@ + path + "': "@ + cause
        },
        SourceErrorView::NoStdinConnected => {
            "--stdin requires stdin to be connected (not a TTY)"@
        },
        SourceErrorView::ConflictingSourceType(text) => text,
    }
}

impl SourceError {
    /// The message that the error is reported with.
    pub fn message(&self) -> (message: String)
        ensures
            message@ == error_message(self@),
    {
        match self {
            SourceError::FileNotFound(path) => {
                let mut message = "file not found: ".to_string();
                message.append(path.as_str());
                message
            },
            SourceError::FileReadError(path, cause) => {
                let mut message = "failed to read file '".to_string();
                message.append(path.as_str());
                message.append("': ");
                message.append(cause.as_str());
                message
            },
            SourceError::NoStdinConnected => {
                "--stdin requires stdin to be connected (not a TTY)".to_string()
            },
            SourceError::ConflictingSourceType(text) => text.clone(),
        }
    }
}

/// Resolve all source specifications into [`MimeSource`] entries.
///
/// Source resolution order:
/// 1. Process --file sources
/// 2. Process --stdin source (if specified)
/// 3. Process --literal sources
/// 4. Process default input (positional args or implicit stdin)
///
/// The standard input is copied without being named unless --stdin names it,
/// also beside --file and --literal sources.
///
/// `replies` says of each file what reading it came to; nothing need be known of
/// the files after one that could not be read. `stdin_is_terminal` says whether
/// no standard input is connected.
pub fn resolve_sources(
    options: &Options,
    replies: Vec<FileReply>,
    stdin_is_terminal: bool,
) -> (resolved: Result<Vec<MimeSource>, SourceError>)
    requires
        answers_files(options.file_sources@, reply_views(replies@)),
    ensures
        resolved_view(resolved) == resolution(
            *options,
            ImplicitStdin::UnlessStdinGiven,
            reply_views(replies@),
            stdin_is_terminal,
        ),
{
    resolve(options, ImplicitStdin::UnlessStdinGiven, replies, stdin_is_terminal)
}

} // verus!
