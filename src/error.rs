use vstd::prelude::*;
use vstd::utf8::{decode_utf8, valid_utf8};

use crate::signing::utf8;

verus! {

/// The ways an operation fails.
#[derive(Debug)]
pub enum S3Error {
    /// The transport could not deliver the request or read the response.
    Transport(String),
    /// The service reported that the bucket exists already.
    BucketAlreadyExists,
    /// Any other failure, with a message that keeps the status code and body.
    Other(String),
}

impl S3Error {
    pub fn is_bucket_already_exists(&self) -> (r: bool)
        ensures
            r == (self is BucketAlreadyExists),
    {
        match self {
            S3Error::BucketAlreadyExists => true,
            _ => false,
        }
    }
}

/// Where the XML tokenizer found a tag: the byte offsets of its `<` and `>`.
#[derive(Clone, Copy, Debug)]
pub struct TagSpan {
    pub start_pos: usize,
    pub end_pos: usize,
}

/// What the XML tokenizer found when asked for the `Error/Code` element of
/// an error body.
#[derive(Debug)]
pub enum ErrorCodeLookup {
    /// The body could not be opened as XML.
    NotXml,
    /// Searching for `Error/Code` failed, for the reason given.
    Unreadable(String),
    /// The document holds no `Error/Code` element.
    NoCode,
    /// The element was found, but its open and close tags could not be read.
    TagsMissing,
    /// The open and close tags of the `Code` element.
    CodeTags(TagSpan, TagSpan),
}

/// The text of a byte string, with each invalid UTF-8 sequence replaced.
pub uninterp spec fn lossy_text_of(b: Seq<u8>) -> Seq<char>;

/// Relies on `String::from_utf8_lossy`: valid UTF-8 decodes to exactly its
/// characters; an invalid sequence becomes U+FFFD.
#[verifier::external_body]
pub(crate) fn lossy_text(b: &[u8]) -> (r: String)
    ensures
        r@ == lossy_text_of(b@),
        valid_utf8(b@) ==> r@ == decode_utf8(b@),
{
    String::from_utf8_lossy(b).into_owned()
}

/// Whether the bytes strictly between the two tags spell `BucketAlreadyExists`.
pub open spec fn names_bucket_already_exists(body: Seq<u8>, open: TagSpan, close: TagSpan) -> bool {
    &&& open.end_pos < close.start_pos <= body.len()
    &&& body.subrange(open.end_pos + 1, close.start_pos as int) == utf8("BucketAlreadyExists"@)
}

/// The message of the error that an error body gives, or `None` where it is
/// the distinguished bucket-already-exists condition.
pub open spec fn error_message_of(body: Seq<u8>, lookup: ErrorCodeLookup) -> Option<Seq<char>> {
    let text = lossy_text_of(body);
    match lookup {
        ErrorCodeLookup::NotXml => Some("Expect body as XML. But body is: "@ + text),
        ErrorCodeLookup::Unreadable(reason) => Some("Err: "@ + reason@ + ". Invalid XML: "@ + text),
        ErrorCodeLookup::NoCode => Some("Invalid XML: "@ + text),
        ErrorCodeLookup::TagsMissing => Some(text),
        ErrorCodeLookup::CodeTags(open, close) => if names_bucket_already_exists(body, open, close) {
            None
        } else {
            Some(text)
        },
    }
}

/// The error that an error body carries, in the terms of `error_message_of`.
pub open spec fn is_error_from_body(e: S3Error, body: Seq<u8>, lookup: ErrorCodeLookup) -> bool {
    match error_message_of(body, lookup) {
        None => e is BucketAlreadyExists,
        Some(m) => e matches S3Error::Other(s) && s@ == m,
    }
}

fn code_is_bucket_already_exists(body: &[u8], open: TagSpan, close: TagSpan) -> (r: bool)
    ensures
        r == names_bucket_already_exists(body@, open, close),
{
    if !(open.end_pos < close.start_pos && close.start_pos <= body.len()) {
        return false;
    }
    let expected = "BucketAlreadyExists".as_bytes();
    assert(expected@ == utf8("BucketAlreadyExists"@));
    let from = open.end_pos + 1;
    let n = close.start_pos - from;
    if n != expected.len() {
        assert(body@.subrange(from as int, close.start_pos as int).len() != expected@.len());
        return false;
    }
    let mut i: usize = 0;
    while i < n
        invariant
            n == expected@.len(),
            expected@ == utf8("BucketAlreadyExists"@),
            from == open.end_pos + 1,
            from + n == close.start_pos <= body@.len(),
            i <= n,
            forall|j: int| 0 <= j < i ==> body@[from + j] == expected@[j],
        decreases n - i,
    {
        if body[from + i] != expected[i] {
            assert(body@.subrange(from as int, close.start_pos as int)[i as int] != expected@[i as int]);
            return false;
        }
        i = i + 1;
    }
    assert(body@.subrange(from as int, close.start_pos as int) =~= expected@);
    true
}

/// Decides what an error body reports, from what the XML tokenizer found in
/// it: `BucketAlreadyExists` where the `Code` element holds exactly that
/// text, and otherwise a generic error that embeds the body.
pub fn detect_error_from_body(body: Vec<u8>, lookup: &ErrorCodeLookup) -> (r: S3Error)
    ensures
        is_error_from_body(r, body@, *lookup),
{
    let text = lossy_text(body.as_slice());
    match lookup {
        ErrorCodeLookup::NotXml => {
            let mut m = String::from_str("Expect body as XML. But body is: ");
            m.append(text.as_str());
            S3Error::Other(m)
        },
        ErrorCodeLookup::Unreadable(reason) => {
            let mut m = String::from_str("Err: ");
            m.append(reason.as_str());
            m.append(". Invalid XML: ");
            m.append(text.as_str());
            S3Error::Other(m)
        },
        ErrorCodeLookup::NoCode => {
            let mut m = String::from_str("Invalid XML: ");
            m.append(text.as_str());
            S3Error::Other(m)
        },
        ErrorCodeLookup::TagsMissing => S3Error::Other(text),
        ErrorCodeLookup::CodeTags(open, close) => {
            if code_is_bucket_already_exists(body.as_slice(), *open, *close) {
                S3Error::BucketAlreadyExists
            } else {
                S3Error::Other(text)
            }
        },
    }
}

} // verus!
