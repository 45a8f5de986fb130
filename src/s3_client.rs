use vstd::prelude::*;

use crate::signing::{canonical_uri_of, populate_headers, signs, SignedHeaders};

verus! {

/// The credentials and location of one S3-compatible service. It holds no
/// state of its own and may drive any number of operations at once.
pub struct S3Client {
    pub access_key: String,
    pub secret_key: String,
    pub region: String,
    pub endpoint: String,
}

/// The transport call that carries a request.
#[derive(Debug)]
pub enum HttpVerb {
    Put,
    Get,
}

/// How many attempts the transport is asked for per operation.
pub const RETRIES: usize = 3;

/// A signed request, ready for the transport: the call to make, the path
/// segments under the endpoint, the headers and the body to send.
#[derive(Debug)]
pub struct S3Request {
    pub verb: HttpVerb,
    pub path_segments: Vec<String>,
    pub retries: usize,
    pub headers: SignedHeaders,
    pub body: Option<Vec<u8>>,
}

/// The payload that a request sends: its body, or nothing.
pub open spec fn payload_of(body: Option<Vec<u8>>) -> Seq<u8> {
    match body {
        Some(b) => b@,
        None => Seq::empty(),
    }
}

/// Whether a request is the signed one for this method and path, with the
/// headers computed over exactly the payload it sends.
pub open spec fn is_signed_request(
    q: S3Request,
    s3: &S3Client,
    method: Seq<char>,
    segments: Seq<Seq<char>>,
    timestamp: Seq<char>,
) -> bool {
    &&& q.retries == RETRIES
    &&& q.path_segments@.len() == segments.len()
    &&& forall|i: int| 0 <= i < segments.len() ==> #[trigger] q.path_segments@[i]@ == segments[i]
    &&& signs(q.headers, s3, method, path_of(segments), payload_of(q.body), timestamp)
}

/// The signed path of one or two segments.
pub open spec fn path_of(segments: Seq<Seq<char>>) -> Seq<char> {
    if segments.len() == 1 {
        canonical_uri_of(segments[0], None)
    } else {
        canonical_uri_of(segments[0], Some(segments[1]))
    }
}

impl S3Client {
    fn signed_request(
        &self,
        verb: HttpVerb,
        method: &str,
        bucket_name: &str,
        key: Option<&str>,
        body: Option<Vec<u8>>,
        timestamp: &str,
    ) -> (r: Result<S3Request, String>)
        requires
            timestamp@.len() >= 8,
        ensures
            r is Ok,
            r matches Ok(q) ==> {
                &&& q.verb == verb
                &&& q.body == body
                &&& is_signed_request(
                    q,
                    self,
                    method@,
                    match key {
                        Some(k) => seq![bucket_name@, k@],
                        None => seq![bucket_name@],
                    },
                    timestamp@,
                )
            },
    {
        let empty: Vec<u8> = Vec::new();
        let headers = match &body {
            Some(b) => populate_headers(self, method, bucket_name, key, b.as_slice(), timestamp),
            None => populate_headers(self, method, bucket_name, key, empty.as_slice(), timestamp),
        };
        let headers = match headers {
            Ok(h) => h,
            Err(e) => return Err(e),
        };
        let mut path_segments: Vec<String> = Vec::new();
        path_segments.push(String::from_str(bucket_name));
        match key {
            Some(k) => path_segments.push(String::from_str(k)),
            None => {},
        }
        let ghost segments = match key {
            Some(k) => seq![bucket_name@, k@],
            None => seq![bucket_name@],
        };
        assert(path_of(segments) == crate::signing::canonical_uri_of(
            bucket_name@,
            crate::signing::key_view(key),
        ));
        Ok(S3Request { verb, path_segments, retries: RETRIES, headers, body })
    }

    /// The request that stores `content` under `bucket_name/key`: a signed
    /// `PUT` whose body is the content that was hashed.
    pub fn upload_file_request(
        &self,
        bucket_name: &str,
        key: &str,
        content: Vec<u8>,
        timestamp: &str,
    ) -> (r: Result<S3Request, String>)
        requires
            timestamp@.len() >= 8,
        ensures
            r is Ok,
            r matches Ok(q) ==> {
                &&& q.verb is Put
                &&& q.body matches Some(b) && b@ == content@
                &&& is_signed_request(q, self, "PUT"@, seq![bucket_name@, key@], timestamp@)
            },
    {
        self.signed_request(HttpVerb::Put, "PUT", bucket_name, Some(key), Some(content), timestamp)
    }

    /// The request that fetches `bucket_name/key`: a signed `GET` with no body.
    pub fn download_file_request(&self, bucket_name: &str, key: &str, timestamp: &str) -> (r:
        Result<S3Request, String>)
        requires
            timestamp@.len() >= 8,
        ensures
            r is Ok,
            r matches Ok(q) ==> {
                &&& q.verb is Get
                &&& q.body is None
                &&& is_signed_request(q, self, "GET"@, seq![bucket_name@, key@], timestamp@)
            },
    {
        self.signed_request(HttpVerb::Get, "GET", bucket_name, Some(key), None, timestamp)
    }

    /// The request that deletes `bucket_name/key`: signed as `DELETE` and,
    /// as the transport layer has it, carried by a `GET` call with no body.
    pub fn delete_file_request(&self, bucket_name: &str, key: &str, timestamp: &str) -> (r:
        Result<S3Request, String>)
        requires
            timestamp@.len() >= 8,
        ensures
            r is Ok,
            r matches Ok(q) ==> {
                &&& q.verb is Get
                &&& q.body is None
                &&& is_signed_request(q, self, "DELETE"@, seq![bucket_name@, key@], timestamp@)
            },
    {
        self.signed_request(HttpVerb::Get, "DELETE", bucket_name, Some(key), None, timestamp)
    }

    /// The request that creates `bucket_name`: a signed `PUT` with no body.
    pub fn create_bucket_request(&self, bucket_name: &str, timestamp: &str) -> (r: Result<
        S3Request,
        String,
    >)
        requires
            timestamp@.len() >= 8,
        ensures
            r is Ok,
            r matches Ok(q) ==> {
                &&& q.verb is Put
                &&& q.body is None
                &&& is_signed_request(q, self, "PUT"@, seq![bucket_name@], timestamp@)
            },
    {
        self.signed_request(HttpVerb::Put, "PUT", bucket_name, None, None, timestamp)
    }
}

} // verus!
