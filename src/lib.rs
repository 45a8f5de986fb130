//! A client core for S3-compatible object storage: request signing with
//! AWS Signature Version 4 and classification of the service's responses.

pub mod error;
pub mod response;
pub mod s3_body_reader;
pub mod s3_client;
pub mod signing;
pub mod text;

pub use error::{detect_error_from_body, ErrorCodeLookup, S3Error, TagSpan};
pub use response::{body_to_read, generic_error, handle_error, BodyRead, Outcome, ResponseBody};
pub use s3_body_reader::S3BodyReader;
pub use s3_client::{HttpVerb, S3Client, S3Request, RETRIES};
pub use signing::{
    amz_timestamp, canonical_request, get_signature_key, payload_hash, populate_headers,
    signed_host, SignedHeaders,
};
pub use text::{to_decimal, to_hex};
