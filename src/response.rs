use vstd::prelude::*;

use crate::error::{
    detect_error_from_body, error_message_of, lossy_text_of, names_bucket_already_exists,
    ErrorCodeLookup, S3Error, TagSpan,
};
use crate::s3_body_reader::S3BodyReader;
use crate::signing::utf8;
use crate::text::{decimal_of, to_decimal};

verus! {

/// How much of a response's body the classifier needs.
#[derive(Debug)]
pub enum BodyRead {
    /// None: the operation succeeded and returns nothing.
    Skip,
    /// All of it, as bytes: the operation succeeded and returns them.
    Bytes,
    /// All of it, as bytes, and the location of its `Error/Code` element.
    ErrorXml,
    /// All of it, as text, for a generic error.
    Text,
}

/// A response body as the transport read it.
#[derive(Debug)]
pub enum ResponseBody {
    NotRead,
    Bytes(Vec<u8>),
    /// The bytes of an error document, and what the XML tokenizer found in them.
    ErrorXml(Vec<u8>, ErrorCodeLookup),
    Text(String),
}

/// What a response comes to, in plain values.
pub enum Outcome {
    Success(Seq<u8>),
    Transport(Seq<char>),
    BucketAlreadyExists,
    Failure(Seq<char>),
}

/// The read that the classifier needs for a status code: the body on `200`
/// only where the operation returns one, the error document on `409`, and
/// the text otherwise.
pub open spec fn body_read_for(status: u16, expects_body: bool) -> BodyRead {
    if status == 200 {
        if expects_body {
            BodyRead::Bytes
        } else {
            BodyRead::Skip
        }
    } else if status == 409 {
        BodyRead::ErrorXml
    } else {
        BodyRead::Text
    }
}

/// The bytes of a body that was read.
pub open spec fn bytes_of(body: ResponseBody) -> Seq<u8> {
    match body {
        ResponseBody::NotRead => Seq::empty(),
        ResponseBody::Bytes(b) => b@,
        ResponseBody::ErrorXml(b, _) => b@,
        ResponseBody::Text(s) => utf8(s@),
    }
}

/// The text of a body that was read.
pub open spec fn text_of(body: ResponseBody) -> Seq<char> {
    match body {
        ResponseBody::NotRead => Seq::empty(),
        ResponseBody::Bytes(b) => lossy_text_of(b@),
        ResponseBody::ErrorXml(b, _) => lossy_text_of(b@),
        ResponseBody::Text(s) => s@,
    }
}

/// `Status Code: {status}. Err: {text}`.
pub open spec fn generic_message_of(status: nat, text: Seq<char>) -> Seq<char> {
    "Status Code: "@ + decimal_of(status) + ". Err: "@ + text
}

/// The classification of a response: success on `200`, the verdict of the
/// error document on `409`, and a generic error for every other status.
pub open spec fn classify(status: u16, expects_body: bool, body: ResponseBody) -> Outcome {
    if status == 200 {
        Outcome::Success(
            if expects_body {
                bytes_of(body)
            } else {
                Seq::empty()
            },
        )
    } else if status == 409 && body is ErrorXml {
        match body {
            ResponseBody::ErrorXml(b, lookup) => match error_message_of(b@, lookup) {
                None => Outcome::BucketAlreadyExists,
                Some(m) => Outcome::Failure(m),
            },
            _ => Outcome::Failure(Seq::empty()),
        }
    } else {
        Outcome::Failure(generic_message_of(status as nat, text_of(body)))
    }
}

/// The outcome that a result stands for.
pub open spec fn outcome_of<T: S3BodyReader>(r: Result<T, S3Error>) -> Outcome {
    match r {
        Ok(v) => Outcome::Success(v.body_bytes()),
        Err(S3Error::Transport(m)) => Outcome::Transport(m@),
        Err(S3Error::BucketAlreadyExists) => Outcome::BucketAlreadyExists,
        Err(S3Error::Other(m)) => Outcome::Failure(m@),
    }
}

/// What to read of a response with this status, for an operation whose
/// success value is `T`.
pub fn body_to_read<T: S3BodyReader>(status: u16) -> (r: BodyRead)
    ensures
        r == body_read_for(status, T::expects_body()),
{
    if status == 200 {
        if T::has_body() {
            BodyRead::Bytes
        } else {
            BodyRead::Skip
        }
    } else if status == 409 {
        BodyRead::ErrorXml
    } else {
        BodyRead::Text
    }
}

/// The generic error for a status code and body text.
pub fn generic_error(status: u16, text: &str) -> (r: S3Error)
    ensures
        r matches S3Error::Other(m) && m@ == generic_message_of(status as nat, text@),
{
    let mut m = String::from_str("Status Code: ");
    let code = to_decimal(status as u64);
    m.append(code.as_str());
    m.append(". Err: ");
    m.append(text);
    S3Error::Other(m)
}

/// Turns a response into the operation's result, from its status code and
/// the body that `body_to_read` asked for.
pub fn handle_error<T: S3BodyReader>(status: u16, body: ResponseBody) -> (r: Result<T, S3Error>)
    ensures
        outcome_of(r) == classify(status, T::expects_body(), body),
        status == 200 <==> r is Ok,
{
    if status == 200 {
        if T::has_body() {
            let bytes = match body {
                ResponseBody::NotRead => Vec::new(),
                ResponseBody::Bytes(b) => b,
                ResponseBody::ErrorXml(b, _) => b,
                ResponseBody::Text(s) => s.as_str().as_bytes_vec(),
            };
            return Ok(T::from_vec(bytes));
        } else {
            return Ok(T::default());
        }
    }
    match body {
        ResponseBody::ErrorXml(b, lookup) => {
            if status == 409 {
                let e = detect_error_from_body(b, &lookup);
                return Err(e);
            }
            let text = crate::error::lossy_text(b.as_slice());
            Err(generic_error(status, text.as_str()))
        },
        ResponseBody::Bytes(b) => {
            let text = crate::error::lossy_text(b.as_slice());
            Err(generic_error(status, text.as_str()))
        },
        ResponseBody::Text(s) => Err(generic_error(status, s.as_str())),
        ResponseBody::NotRead => {
            proof {
                reveal_strlit("");
            }
            Err(generic_error(status, ""))
        },
    }
}

/// A `200` response is a success: carrying nothing for an operation that
/// returns nothing, whatever was read, and exactly the bytes read for an
/// operation that returns the body.
pub proof fn lemma_success_round_trip(unread: ResponseBody, body: Vec<u8>)
    ensures
        classify(200, false, unread) == Outcome::Success(Seq::empty()),
        classify(200, true, ResponseBody::Bytes(body)) == Outcome::Success(body@),
{
}

/// On `409`, an error document that is not XML, holds no `Error/Code`, or
/// whose code is anything but `BucketAlreadyExists` gives a generic failure
/// whose message ends with the body's text.
pub proof fn lemma_conflict_without_known_code(
    expects_body: bool,
    body: Vec<u8>,
    lookup: ErrorCodeLookup,
)
    requires
        !(lookup matches ErrorCodeLookup::CodeTags(open, close) && names_bucket_already_exists(
            body@,
            open,
            close,
        )),
    ensures
        classify(409, expects_body, ResponseBody::ErrorXml(body, lookup)) matches Outcome::Failure(m)
            && m.len() >= lossy_text_of(body@).len() && m.subrange(
            m.len() - lossy_text_of(body@).len(),
            m.len() as int,
        ) == lossy_text_of(body@),
{
    let t = lossy_text_of(body@);
    match classify(409, expects_body, ResponseBody::ErrorXml(body, lookup)) {
        Outcome::Failure(m) => {
            let p = m.subrange(0, m.len() - t.len());
            assert(m == p + t);
            assert(m.subrange(m.len() - t.len(), m.len() as int) =~= t);
        },
        _ => {},
    }
}

/// Every status but `200` and `409` gives a generic failure whose message
/// starts with that status code in decimal.
pub proof fn lemma_other_status_is_generic(status: u16, expects_body: bool, body: ResponseBody)
    requires
        status != 200,
        status != 409,
    ensures
        classify(status, expects_body, body) == Outcome::Failure(
            generic_message_of(status as nat, text_of(body)),
        ),
        ({
            let head = "Status Code: "@ + decimal_of(status as nat);
            generic_message_of(status as nat, text_of(body)).subrange(0, head.len() as int) == head
        }),
{
    let head = "Status Code: "@ + decimal_of(status as nat);
    let m = generic_message_of(status as nat, text_of(body));
    assert(m == head + (". Err: "@ + text_of(body)));
    assert(m.subrange(0, head.len() as int) =~= head);
}

/// Creating a bucket that exists comes to `BucketAlreadyExists` each time
/// the service answers so, however many times it is asked.
pub proof fn lemma_bucket_exists_each_time(
    first: Vec<u8>,
    first_code: (TagSpan, TagSpan),
    second: Vec<u8>,
    second_code: (TagSpan, TagSpan),
)
    requires
        names_bucket_already_exists(first@, first_code.0, first_code.1),
        names_bucket_already_exists(second@, second_code.0, second_code.1),
    ensures
        classify(
            409,
            false,
            ResponseBody::ErrorXml(first, ErrorCodeLookup::CodeTags(first_code.0, first_code.1)),
        ) == Outcome::BucketAlreadyExists,
        classify(
            409,
            false,
            ResponseBody::ErrorXml(second, ErrorCodeLookup::CodeTags(second_code.0, second_code.1)),
        ) == Outcome::BucketAlreadyExists,
{
}

} // verus!
