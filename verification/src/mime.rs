//! MIME types as they are written on the command line.

use vstd::prelude::*;

verus! {

/// MIME type to offer copied data under.
#[derive(Debug)]
pub enum MimeType {
    /// Detect the MIME type from the data.
    Autodetect,
    /// Offer this MIME type.
    Specific(String),
}

/// What a [`MimeType`] stands for.
#[verifier::ext_equal]
pub enum MimeTypeView {
    Autodetect,
    Specific(Seq<char>),
}

impl View for MimeType {
    type V = MimeTypeView;

    open spec fn view(&self) -> MimeTypeView {
        match self {
            MimeType::Autodetect => MimeTypeView::Autodetect,
            MimeType::Specific(name) => MimeTypeView::Specific(name@),
        }
    }
}

/// `upper` is an ASCII capital letter and `lower` is its small form.
pub open spec fn is_case_pair(upper: char, lower: char) -> bool {
    'A' <= upper <= 'Z' && lower as int == upper as int + 32
}

/// The characters are equal, or are one ASCII letter in its two cases.
pub open spec fn same_letter(a: char, b: char) -> bool {
    a == b || is_case_pair(a, b) || is_case_pair(b, a)
}

/// The texts are equal but for the case of their ASCII letters.
pub open spec fn same_text(a: Seq<char>, b: Seq<char>) -> bool {
    a.len() == b.len() && forall|i: int|
        0 <= i < a.len() ==> same_letter(#[trigger] a[i], b[i])
}

/// The MIME type that a word of the command line names: the word `auto`, in
/// any case, asks for detection, and any other word is taken as it stands.
pub open spec fn named_mime_type(word: Seq<char>) -> MimeTypeView {
    if same_text(word, "auto"@) {
        MimeTypeView::Autodetect
    } else {
        MimeTypeView::Specific(word)
    }
}

fn is_same_letter(a: char, b: char) -> (same: bool)
    ensures
        same == same_letter(a, b),
{
    let x: u32 = a as u32;
    let y: u32 = b as u32;
    a == b || ('A' <= a && a <= 'Z' && y == x + 32) || ('A' <= b && b <= 'Z' && x == y + 32)
}

fn is_same_text(a: &str, b: &str) -> (same: bool)
    ensures
        same == same_text(a@, b@),
{
    let len: usize = a.unicode_len();
    if len != b.unicode_len() {
        return false;
    }
    for i in 0..len
        invariant
            len == a@.len(),
            len == b@.len(),
            forall|j: int| 0 <= j < i ==> same_letter(#[trigger] a@[j], b@[j]),
    {
        if !is_same_letter(a.get_char(i), b.get_char(i)) {
            return false;
        }
    }
    true
}

/// Parse a MIME type string, treating "auto" as auto-detection.
pub fn parse_mime_type(mime: &str) -> (parsed: MimeType)
    ensures
        parsed@ == named_mime_type(mime@),
{
    if is_same_text(mime, "auto") {
        MimeType::Autodetect
    } else {
        MimeType::Specific(mime.to_string())
    }
}

} // verus!
