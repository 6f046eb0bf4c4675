//! What the `wl-copy` program makes of its options.

use vstd::prelude::*;
use wl_clipboard_rs::copy;
use wl_clipboard_rs::copy::Options as CopyOptions;

use crate::resolution::{answers_files, resolution, resolve, resolved_view, ImplicitStdin};
use crate::source::{reply_views, FileReply, MimeSource};
use crate::wl_copy::{Options, SourceError};

verus! {

/// The clipboard to operate on.
#[derive(Clone, Copy, Debug, PartialEq, Eq, Structural)]
pub enum ClipboardType {
    /// The regular clipboard.
    Regular,
    /// The "primary" clipboard.
    Primary,
    /// Both clipboards at once.
    Both,
}

/// The seat to operate on.
#[derive(Debug)]
pub enum Seat {
    /// All existing seats at once.
    All,
    /// The seat with this name.
    Specific(String),
}

/// How many paste requests to serve.
#[derive(Clone, Copy, Debug, PartialEq, Eq, Structural)]
pub enum ServeRequests {
    /// Any number.
    Unlimited,
    /// This many.
    Only(usize),
}

/// How to copy.
#[derive(Debug)]
pub struct CopySettings {
    pub serve_requests: ServeRequests,
    /// Serve paste requests in the thread that copies.
    pub foreground: bool,
    pub clipboard: ClipboardType,
    /// Trim the trailing newline of text.
    pub trim_newline: bool,
    pub seat: Seat,
    /// Offer text under no other MIME types than were asked for.
    pub omit_additional_text_mime_types: bool,
}

/// What a [`Seat`] stands for.
#[verifier::ext_equal]
pub enum SeatView {
    All,
    Specific(Seq<char>),
}

/// What [`CopySettings`] stand for.
#[verifier::ext_equal]
pub struct CopySettingsView {
    pub serve_requests: ServeRequests,
    pub foreground: bool,
    pub clipboard: ClipboardType,
    pub trim_newline: bool,
    pub seat: SeatView,
    pub omit_additional_text_mime_types: bool,
}

impl View for Seat {
    type V = SeatView;

    open spec fn view(&self) -> SeatView {
        match self {
            Seat::All => SeatView::All,
            Seat::Specific(name) => SeatView::Specific(name@),
        }
    }
}

impl View for CopySettings {
    type V = CopySettingsView;

    open spec fn view(&self) -> CopySettingsView {
        CopySettingsView {
            serve_requests: self.serve_requests,
            foreground: self.foreground,
            clipboard: self.clipboard,
            trim_newline: self.trim_newline,
            seat: self.seat@,
            omit_additional_text_mime_types: self.omit_additional_text_mime_types,
        }
    }
}

/// The options of the clipboard crate, which are opaque here.
#[verifier::external_type_specification]
#[verifier::external_body]
pub struct ExCopyOptions(CopyOptions);

/// The options of the clipboard crate that hold these settings, and the
/// defaults of that crate for all others.
pub uninterp spec fn copy_options(settings: CopySettingsView) -> CopyOptions;

/// Calls `wl_clipboard_rs::copy::Options::new` and then its setters
/// `serve_requests`, `foreground`, `clipboard`, `trim_newline`, `seat` and
/// `omit_additional_text_mime_types`. `new` gives the default of each field, and
/// each setter stores its argument and touches nothing else, so what comes out
/// is a function of the settings. The fields are private to that crate: what
/// they hold is not stated beyond that.
#[verifier::external_body]
fn build_copy_options(settings: CopySettings) -> (built: CopyOptions)
    ensures
        built == copy_options(settings@),
{
    let mut built = CopyOptions::new();
    built.foreground(settings.foreground).trim_newline(settings.trim_newline);
    built.omit_additional_text_mime_types(settings.omit_additional_text_mime_types);
    match settings.serve_requests {
        ServeRequests::Unlimited => built.serve_requests(copy::ServeRequests::Unlimited),
        ServeRequests::Only(count) => built.serve_requests(copy::ServeRequests::Only(count)),
    };
    match settings.clipboard {
        ClipboardType::Regular => built.clipboard(copy::ClipboardType::Regular),
        ClipboardType::Primary => built.clipboard(copy::ClipboardType::Primary),
        ClipboardType::Both => built.clipboard(copy::ClipboardType::Both),
    };
    built.seat(match settings.seat { Seat::All => copy::Seat::All, Seat::Specific(name) => copy::Seat::Specific(name) });
    built
}

/// The clipboards that the options choose.
pub open spec fn chosen_clipboard(options: Options) -> ClipboardType {
    if options.primary && options.regular {
        ClipboardType::Both
    } else if options.primary {
        ClipboardType::Primary
    } else {
        ClipboardType::Regular
    }
}

/// The seats that the options choose.
pub open spec fn chosen_seat(options: Options) -> SeatView {
    match options.seat {
        Some(name) => SeatView::Specific(name@),
        None => SeatView::All,
    }
}

/// The settings that the options choose.
pub open spec fn chosen_settings(options: Options) -> CopySettingsView {
    CopySettingsView {
        serve_requests: if options.paste_once {
            ServeRequests::Only(1)
        } else {
            ServeRequests::Unlimited
        },
        foreground: true,
        clipboard: chosen_clipboard(options),
        trim_newline: options.trim_newline,
        seat: chosen_seat(options),
        omit_additional_text_mime_types: options.no_text_fallback,
    }
}

/// The clipboards to work with.
pub fn choose_clipboard(options: &Options) -> (clipboard: ClipboardType)
    ensures
        clipboard == chosen_clipboard(*options),
{
    if options.primary {
        if options.regular {
            ClipboardType::Both
        } else {
            ClipboardType::Primary
        }
    } else {
        ClipboardType::Regular
    }
}

/// The seats to work with.
pub fn choose_seat(options: &Options) -> (seat: Seat)
    ensures
        seat@ == chosen_seat(*options),
{
    match &options.seat {
        Some(name) => Seat::Specific(name.clone()),
        None => Seat::All,
    }
}

/// How to copy. The paste requests are always served in the foreground:
/// whether the process itself goes to the background is decided apart.
pub fn choose_settings(options: &Options) -> (settings: CopySettings)
    ensures
        settings@ == chosen_settings(*options),
{
    CopySettings {
        serve_requests: if options.paste_once {
            ServeRequests::Only(1)
        } else {
            ServeRequests::Unlimited
        },
        foreground: true,
        clipboard: choose_clipboard(options),
        trim_newline: options.trim_newline,
        seat: choose_seat(options),
        omit_additional_text_mime_types: options.no_text_fallback,
    }
}

impl CopySettings {
    /// The options of the clipboard crate that hold these settings.
    pub fn build(self) -> (built: CopyOptions)
        ensures
            built == copy_options(self@),
    {
        build_copy_options(self)
    }
}

/// The options of the clipboard crate to copy with.
pub fn from_options(x: &Options) -> (built: CopyOptions)
    ensures
        built == copy_options(chosen_settings(*x)),
{
    choose_settings(x).build()
}

/// The verbosity of the log.
pub fn verbosity(options: &Options) -> (level: usize)
    ensures
        level == options.verbose + 1,
{
    options.verbose as usize + 1
}

/// Resolve all source specifications into [`MimeSource`] entries.
///
/// Source resolution order:
/// 1. Process --file sources
/// 2. Process --stdin source (if specified)
/// 3. Process --literal sources
/// 4. Process default input (positional args or implicit stdin)
///
/// The standard input is copied without being named only if no --file, --stdin
/// or --literal source is given.
///
/// `replies` says of each file what reading it came to; nothing need be known of
/// the files after one that could not be read. `stdin_is_terminal` says whether
/// no standard input is connected.
pub fn resolve_sources(
    options: &Options,
    replies: Vec<FileReply>,
    stdin_is_terminal: bool,
) -> (resolved: Result<Vec<MimeSource>, SourceError>)
    requires
        answers_files(options.file_sources@, reply_views(replies@)),
    ensures
        resolved_view(resolved) == resolution(
            *options,
            ImplicitStdin::UnlessSourceGiven,
            reply_views(replies@),
            stdin_is_terminal,
        ),
{
    resolve(options, ImplicitStdin::UnlessSourceGiven, replies, stdin_is_terminal)
}

} // verus!
