//! Whether a text is a URL, decided by the `linkify` crate's link finder.

use vstd::prelude::*;
use vstd::string::*;
use vstd::utf8::encode_utf8;

verus! {

/// What a stretch of text is.
#[derive(Clone, Copy, Debug, PartialEq, Eq, Structural)]
pub enum SpanKind {
    /// Text that is no link.
    Plain,
    /// A URL with a scheme.
    Url,
    /// An e-mail address.
    Email,
    /// A link of a kind that is neither of the two.
    Other,
}

/// A stretch of a text: the bytes from `start` up to `end`, and what they
/// are.
#[derive(Clone, Copy, Debug, PartialEq, Eq, Structural)]
pub struct TextSpan {
    pub start: usize,
    pub end: usize,
    pub kind: SpanKind,
}

/// The first stretch into which the link finder, with its default settings,
/// divides `text`; `None` for the empty text.
pub uninterp spec fn first_span(text: Seq<char>) -> Option<TextSpan>;

/// Whether a stretch is a URL that begins at the front of a text of
/// `byte_len` bytes and ends at its end.
pub open spec fn covers_as_url(span: Option<TextSpan>, byte_len: nat) -> bool {
    match span {
        Some(s) => s.start == 0 && s.end == byte_len && s.kind == SpanKind::Url,
        None => false,
    }
}

/// A text is a URL where the first stretch that the link finder sees in it
/// is a URL and is the whole text.
pub open spec fn is_url(text: Seq<char>) -> bool {
    covers_as_url(first_span(text), encode_utf8(text).len())
}

/// Calls `linkify::LinkFinder::new`, `spans` on `text`, and `next` once on
/// the iterator, and copies the first span's bounds and kind.
///
/// Believed, not proved: the span depends on the text alone.
#[verifier::external_body]
fn find_first_span(text: &str) -> (span: Option<TextSpan>)
    ensures
        span == first_span(text@),
{
    match linkify::LinkFinder::new().spans(text).next() {
        None => None,
        Some(found) => Some(TextSpan {
            start: found.start(),
            end: found.end(),
            kind: match found.kind() {
                None => SpanKind::Plain,
                Some(linkify::LinkKind::Url) => SpanKind::Url,
                Some(linkify::LinkKind::Email) => SpanKind::Email,
                Some(_) => SpanKind::Other,
            },
        }),
    }
}

/// Whether `span` is a URL that is the whole of a text of `byte_len` bytes.
pub fn span_is_whole_url(span: Option<TextSpan>, byte_len: usize) -> (whole: bool)
    ensures
        whole == covers_as_url(span, byte_len as nat),
{
    match span {
        Some(s) => s.start == 0 && s.end == byte_len && s.kind == SpanKind::Url,
        None => false,
    }
}

/// Whether `text` is a URL.
pub fn is_valid_url(text: &str) -> (valid: bool)
    ensures
        valid == is_url(text@),
{
    let span = find_first_span(text);
    span_is_whole_url(span, text.as_bytes().len())
}

} // verus!
