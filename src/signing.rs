use vstd::prelude::*;
use vstd::utf8::encode_utf8;

use crate::s3_client::S3Client;
use crate::text::{hex_of, lemma_hex_len, to_hex};

verus! {

/// The SHA-256 digest of a byte string.
pub uninterp spec fn sha256_of(data: Seq<u8>) -> Seq<u8>;

/// The HMAC-SHA256 tag of a message under a key.
pub uninterp spec fn hmac_sha256_of(key: Seq<u8>, msg: Seq<u8>) -> Seq<u8>;

/// Relies on `sha2::Sha256::digest`: the SHA-256 digest of the input, 32 bytes long.
#[verifier::external_body]
fn sha256(data: &[u8]) -> (r: Vec<u8>)
    ensures
        r@ == sha256_of(data@),
        r@.len() == 32,
{
    <sha2::Sha256 as sha2::Digest>::digest(data).to_vec()
}

/// Relies on `hmac::Hmac<Sha256>`: `Mac::new_from_slice` accepts a key of any
/// length (a key longer than a block is hashed first, so it never returns
/// `Err`), and the finalized tag is 32 bytes long.
#[verifier::external_body]
fn hmac_sha256(key: &[u8], msg: &[u8]) -> (r: Result<Vec<u8>, String>)
    ensures
        r is Ok,
        r matches Ok(tag) ==> tag@ == hmac_sha256_of(key@, msg@) && tag@.len() == 32,
{
    match <hmac::Hmac<sha2::Sha256> as hmac::Mac>::new_from_slice(key) {
        Ok(mac) => Ok(hmac::Mac::finalize(hmac::Mac::chain_update(mac, msg)).into_bytes().to_vec()),
        Err(e) => Err(e.to_string()),
    }
}

/// The UTF-8 bytes of a text.
pub open spec fn utf8(s: Seq<char>) -> Seq<u8> {
    encode_utf8(s)
}

/// The SigV4 key chain: the secret prefixed with `AWS4` keys an HMAC of the
/// date, whose tag keys one of the region, then of the service, then of
/// `aws4_request`.
pub open spec fn signing_key_of(
    secret: Seq<char>,
    date: Seq<char>,
    region: Seq<char>,
    service: Seq<char>,
) -> Seq<u8> {
    let k_secret = utf8("AWS4"@ + secret);
    let k_date = hmac_sha256_of(k_secret, utf8(date));
    let k_region = hmac_sha256_of(k_date, utf8(region));
    let k_service = hmac_sha256_of(k_region, utf8(service));
    hmac_sha256_of(k_service, utf8("aws4_request"@))
}

/// Lower-case hex of the SHA-256 digest of a payload.
pub open spec fn payload_hash_of(payload: Seq<u8>) -> Seq<char> {
    hex_of(sha256_of(payload))
}

/// The path that is signed: `/bucket` or `/bucket/key`.
pub open spec fn canonical_uri_of(bucket: Seq<char>, key: Option<Seq<char>>) -> Seq<char> {
    match key {
        Some(k) => "/"@ + bucket + "/"@ + k,
        None => "/"@ + bucket,
    }
}

/// The canonical request, with exactly three signed headers in fixed order
/// and an empty query string.
pub open spec fn canonical_request_of(
    method: Seq<char>,
    uri: Seq<char>,
    host: Seq<char>,
    payload_hash: Seq<char>,
    timestamp: Seq<char>,
) -> Seq<char> {
    method + "\n"@ + uri + "\n\nhost:"@ + host + "\nx-amz-content-sha256:"@ + payload_hash
        + "\nx-amz-date:"@ + timestamp + "\n\nhost;x-amz-content-sha256;x-amz-date\n"@
        + payload_hash
}

/// The credential scope `date/region/service/aws4_request`.
pub open spec fn scope_of(date: Seq<char>, region: Seq<char>, service: Seq<char>) -> Seq<char> {
    date + "/"@ + region + "/"@ + service + "/aws4_request"@
}

/// The string that the signing key signs.
pub open spec fn string_to_sign_of(
    timestamp: Seq<char>,
    scope: Seq<char>,
    hashed_canonical_request: Seq<char>,
) -> Seq<char> {
    "AWS4-HMAC-SHA256\n"@ + timestamp + "\n"@ + scope + "\n"@ + hashed_canonical_request
}

/// The value of the `Authorization` header.
pub open spec fn authorization_header_of(
    access_key: Seq<char>,
    scope: Seq<char>,
    signature: Seq<char>,
) -> Seq<char> {
    "AWS4-HMAC-SHA256 Credential="@ + access_key + "/"@ + scope
        + ",SignedHeaders=host;x-amz-content-sha256;x-amz-date,Signature="@ + signature
}

/// The signature of a request: hex of the HMAC of the string to sign under
/// the signing key of its date, region and the service `s3`.
pub open spec fn signature_of(
    secret: Seq<char>,
    region: Seq<char>,
    host: Seq<char>,
    method: Seq<char>,
    uri: Seq<char>,
    payload: Seq<u8>,
    timestamp: Seq<char>,
) -> Seq<char> {
    let date = timestamp.subrange(0, 8);
    let scope = scope_of(date, region, "s3"@);
    let canonical = canonical_request_of(method, uri, host, payload_hash_of(payload), timestamp);
    let to_sign = string_to_sign_of(timestamp, scope, hex_of(sha256_of(utf8(canonical))));
    hex_of(hmac_sha256_of(signing_key_of(secret, date, region, "s3"@), utf8(to_sign)))
}

/// Walks the SigV4 key chain from the secret key down to the signing key.
pub fn get_signature_key(secret_key: &str, date: &str, region: &str, service: &str) -> (r: Result<
    Vec<u8>,
    String,
>)
    ensures
        r is Ok,
        r matches Ok(k) ==> k@ == signing_key_of(secret_key@, date@, region@, service@),
        r matches Ok(k) ==> k@.len() == 32,
{
    let mut seed = String::from_str("AWS4");
    seed.append(secret_key);
    let k_date = match hmac_sha256(seed.as_str().as_bytes(), date.as_bytes()) {
        Ok(k) => k,
        Err(e) => return Err(e),
    };
    let k_region = match hmac_sha256(k_date.as_slice(), region.as_bytes()) {
        Ok(k) => k,
        Err(e) => return Err(e),
    };
    let k_service = match hmac_sha256(k_region.as_slice(), service.as_bytes()) {
        Ok(k) => k,
        Err(e) => return Err(e),
    };
    hmac_sha256(k_service.as_slice(), "aws4_request".as_bytes())
}

/// The three headers that authenticate a request.
#[derive(Debug)]
pub struct SignedHeaders {
    /// `X-Amz-Content-Sha256`: lower-case hex of the payload's SHA-256 digest.
    pub content_sha256: String,
    /// `X-Amz-Date`: the timestamp the request was signed with.
    pub amz_date: String,
    /// `Authorization`: credential, scope, signed header names and signature.
    pub authorization: String,
}

impl SignedHeaders {
    /// The headers as name and value pairs, in the order they are attached.
    pub fn to_pairs(&self) -> (r: Vec<(String, String)>)
        ensures
            r@.len() == 3,
            r@[0].0@ == "X-Amz-Content-Sha256"@,
            r@[0].1@ == self.content_sha256@,
            r@[1].0@ == "X-Amz-Date"@,
            r@[1].1@ == self.amz_date@,
            r@[2].0@ == "Authorization"@,
            r@[2].1@ == self.authorization@,
    {
        let mut r: Vec<(String, String)> = Vec::new();
        r.push((String::from_str("X-Amz-Content-Sha256"), self.content_sha256.clone()));
        r.push((String::from_str("X-Amz-Date"), self.amz_date.clone()));
        r.push((String::from_str("Authorization"), self.authorization.clone()));
        r
    }
}

/// The scheme prefix that is not part of the signed host.
pub open spec fn https_prefix() -> Seq<char> {
    seq!['h', 't', 't', 'p', 's', ':', '/', '/']
}

/// The endpoint with every leading `https://` removed.
pub open spec fn host_of(endpoint: Seq<char>) -> Seq<char>
    decreases endpoint.len(),
{
    if endpoint.len() >= 8 && endpoint.subrange(0, 8) == https_prefix() {
        host_of(endpoint.subrange(8, endpoint.len() as int))
    } else {
        endpoint
    }
}

fn starts_with_https(s: &str) -> (r: bool)
    ensures
        r == (s@.len() >= 8 && s@.subrange(0, 8) == https_prefix()),
{
    if s.unicode_len() < 8 {
        return false;
    }
    let r = s.get_char(0) == 'h' && s.get_char(1) == 't' && s.get_char(2) == 't' && s.get_char(3)
        == 'p' && s.get_char(4) == 's' && s.get_char(5) == ':' && s.get_char(6) == '/'
        && s.get_char(7) == '/';
    if r {
        assert(s@.subrange(0, 8) =~= https_prefix());
    } else {
        assert(s@.subrange(0, 8) != https_prefix()) by {
            if s@.subrange(0, 8) == https_prefix() {
                assert(s@[0] == s@.subrange(0, 8)[0]);
                assert(s@[1] == s@.subrange(0, 8)[1]);
                assert(s@[2] == s@.subrange(0, 8)[2]);
                assert(s@[3] == s@.subrange(0, 8)[3]);
                assert(s@[4] == s@.subrange(0, 8)[4]);
                assert(s@[5] == s@.subrange(0, 8)[5]);
                assert(s@[6] == s@.subrange(0, 8)[6]);
                assert(s@[7] == s@.subrange(0, 8)[7]);
            }
        }
    }
    r
}

/// The host that is signed: the endpoint without its `https://` prefix.
pub fn signed_host(endpoint: &str) -> (r: &str)
    ensures
        r@ == host_of(endpoint@),
{
    let mut rest = endpoint;
    while starts_with_https(rest)
        invariant
            host_of(rest@) == host_of(endpoint@),
        decreases rest@.len(),
    {
        let len = rest.unicode_len();
        rest = rest.substring_char(8, len);
    }
    rest
}

/// Whether a character is dropped from an RFC 3339 instant to form an AMZ timestamp.
pub open spec fn is_separator(c: char) -> bool {
    c == '-' || c == ':'
}

/// The characters of a text other than `-` and `:`, in order.
pub open spec fn without_separators(s: Seq<char>) -> Seq<char>
    decreases s.len(),
{
    if s.len() == 0 {
        Seq::empty()
    } else if is_separator(s.last()) {
        without_separators(s.drop_last())
    } else {
        without_separators(s.drop_last()).push(s.last())
    }
}

/// The AMZ timestamp of an RFC 3339 instant: separators removed, cut to 15
/// characters, then a `Z`.
pub open spec fn amz_timestamp_of(rfc3339: Seq<char>) -> Seq<char> {
    let t = without_separators(rfc3339);
    let t = if t.len() > 15 { t.subrange(0, 15) } else { t };
    t.push('Z')
}

/// Shapes an RFC 3339 instant (`2024-01-02T03:04:05.678+00:00`) into the
/// `YYYYMMDDTHHMMSSZ` form used by the `X-Amz-Date` header and the scope.
pub fn amz_timestamp(rfc3339: &str) -> (r: String)
    ensures
        r@ == amz_timestamp_of(rfc3339@),
{
    let len = rfc3339.unicode_len();
    let mut t = String::new();
    let mut i: usize = 0;
    while i < len
        invariant
            len == rfc3339@.len(),
            i <= len,
            t@ == without_separators(rfc3339@.subrange(0, i as int)),
        decreases len - i,
    {
        let c = rfc3339.get_char(i);
        proof {
            let next = rfc3339@.subrange(0, i + 1);
            assert(next.drop_last() =~= rfc3339@.subrange(0, i as int));
            assert(next.last() == c);
        }
        if c != '-' && c != ':' {
            let one = rfc3339.substring_char(i, i + 1);
            assert(one@ =~= seq![c]);
            t.append(one);
        }
        i = i + 1;
    }
    assert(rfc3339@.subrange(0, len as int) =~= rfc3339@);
    let tl = t.as_str().unicode_len();
    let mut r = if tl > 15 {
        t.as_str().substring_char(0, 15).to_owned()
    } else {
        t
    };
    proof {
        reveal_strlit("Z");
    }
    r.append("Z");
    r
}

/// Lower-case hex of the SHA-256 digest of a payload; the empty payload is
/// hashed like any other.
pub fn payload_hash(content: &[u8]) -> (r: String)
    ensures
        r@ == payload_hash_of(content@),
{
    let digest = sha256(content);
    to_hex(digest.as_slice())
}

/// Builds the canonical request from its parts.
pub fn canonical_request(
    method: &str,
    uri: &str,
    host: &str,
    payload_hash: &str,
    timestamp: &str,
) -> (r: String)
    ensures
        r@ == canonical_request_of(method@, uri@, host@, payload_hash@, timestamp@),
{
    let mut r = String::from_str(method);
    r.append("\n");
    r.append(uri);
    r.append("\n\nhost:");
    r.append(host);
    r.append("\nx-amz-content-sha256:");
    r.append(payload_hash);
    r.append("\nx-amz-date:");
    r.append(timestamp);
    r.append("\n\nhost;x-amz-content-sha256;x-amz-date\n");
    r.append(payload_hash);
    r
}

fn canonical_uri(bucket_name: &str, key: Option<&str>) -> (r: String)
    ensures
        r@ == canonical_uri_of(bucket_name@, key_view(key)),
{
    let mut r = String::from_str("/");
    r.append(bucket_name);
    match key {
        Some(k) => {
            r.append("/");
            r.append(k);
        },
        None => {},
    }
    r
}

fn scope(date: &str, region: &str, service: &str) -> (r: String)
    ensures
        r@ == scope_of(date@, region@, service@),
{
    let mut r = String::from_str(date);
    r.append("/");
    r.append(region);
    r.append("/");
    r.append(service);
    r.append("/aws4_request");
    r
}

fn string_to_sign(timestamp: &str, scope: &str, hashed_canonical_request: &str) -> (r: String)
    ensures
        r@ == string_to_sign_of(timestamp@, scope@, hashed_canonical_request@),
{
    let mut r = String::from_str("AWS4-HMAC-SHA256\n");
    r.append(timestamp);
    r.append("\n");
    r.append(scope);
    r.append("\n");
    r.append(hashed_canonical_request);
    r
}

fn authorization_header(access_key: &str, scope: &str, signature: &str) -> (r: String)
    ensures
        r@ == authorization_header_of(access_key@, scope@, signature@),
{
    let mut r = String::from_str("AWS4-HMAC-SHA256 Credential=");
    r.append(access_key);
    r.append("/");
    r.append(scope);
    r.append(",SignedHeaders=host;x-amz-content-sha256;x-amz-date,Signature=");
    r.append(signature);
    r
}

/// The view of an optional object key.
pub open spec fn key_view(key: Option<&str>) -> Option<Seq<char>> {
    match key {
        Some(k) => Some(k@),
        None => None,
    }
}

/// Whether the headers are those that authenticate a request with this
/// method, path and payload at this timestamp, for this client.
pub open spec fn signs(
    h: SignedHeaders,
    s3: &S3Client,
    method: Seq<char>,
    uri: Seq<char>,
    payload: Seq<u8>,
    timestamp: Seq<char>,
) -> bool {
    &&& h.content_sha256@ == payload_hash_of(payload)
    &&& h.amz_date@ == timestamp
    &&& h.authorization@ == authorization_header_of(
        s3.access_key@,
        scope_of(timestamp.subrange(0, 8), s3.region@, "s3"@),
        signature_of(
            s3.secret_key@,
            s3.region@,
            host_of(s3.endpoint@),
            method,
            uri,
            payload,
            timestamp,
        ),
    )
}

/// Signs a request to `/bucket` or `/bucket/key` with the given method and
/// payload at the given AMZ timestamp, and returns the three headers that
/// authenticate it. The timestamp's first eight characters are the date of
/// the scope.
pub fn populate_headers(
    s3: &S3Client,
    method: &str,
    bucket_name: &str,
    key: Option<&str>,
    content: &[u8],
    timestamp: &str,
) -> (r: Result<SignedHeaders, String>)
    requires
        timestamp@.len() >= 8,
    ensures
        r is Ok,
        r matches Ok(h) ==> signs(
            h,
            s3,
            method@,
            canonical_uri_of(bucket_name@, key_view(key)),
            content@,
            timestamp@,
        ),
{
    let service = "s3";
    let content_sha256 = payload_hash(content);
    let host = signed_host(s3.endpoint.as_str());
    let uri = canonical_uri(bucket_name, key);
    let date = timestamp.substring_char(0, 8);

    let canonical = canonical_request(method, uri.as_str(), host, content_sha256.as_str(), timestamp);
    let hashed_canonical = payload_hash(canonical.as_str().as_bytes());

    let scope = scope(date, s3.region.as_str(), service);
    let to_sign = string_to_sign(timestamp, scope.as_str(), hashed_canonical.as_str());

    let signing_key = match get_signature_key(s3.secret_key.as_str(), date, s3.region.as_str(), service) {
        Ok(k) => k,
        Err(e) => return Err(e),
    };
    let tag = match hmac_sha256(signing_key.as_slice(), to_sign.as_str().as_bytes()) {
        Ok(t) => t,
        Err(e) => return Err(e),
    };
    let signature = to_hex(tag.as_slice());

    let authorization = authorization_header(s3.access_key.as_str(), scope.as_str(), signature.as_str());
    Ok(SignedHeaders { content_sha256, amz_date: String::from_str(timestamp), authorization })
}

/// The payload hash depends on the payload alone, has two hex digits per
/// digest byte, and the canonical request ends with the very hash that the
/// `X-Amz-Content-Sha256` header carries.
pub proof fn lemma_payload_hash_reused(
    method: Seq<char>,
    uri: Seq<char>,
    host: Seq<char>,
    payload: Seq<u8>,
    same_payload: Seq<u8>,
    timestamp: Seq<char>,
)
    requires
        payload == same_payload,
    ensures
        payload_hash_of(payload) == payload_hash_of(same_payload),
        payload_hash_of(payload).len() == 2 * sha256_of(payload).len(),
        ({
            let h = payload_hash_of(payload);
            let c = canonical_request_of(method, uri, host, h, timestamp);
            c.subrange(c.len() - h.len(), c.len() as int) == h
        }),
{
    lemma_hex_len(sha256_of(payload));
    let h = payload_hash_of(payload);
    let c = canonical_request_of(method, uri, host, h, timestamp);
    let p = method + "\n"@ + uri + "\n\nhost:"@ + host + "\nx-amz-content-sha256:"@ + h
        + "\nx-amz-date:"@ + timestamp + "\n\nhost;x-amz-content-sha256;x-amz-date\n"@;
    assert(c == p + h);
    assert(c.subrange(c.len() - h.len(), c.len() as int) =~= h);
}

/// Deriving the signing key twice from the same secret, date, region and
/// service gives the same key.
pub proof fn lemma_signing_key_deterministic(
    secret: Seq<char>,
    date: Seq<char>,
    region: Seq<char>,
    service: Seq<char>,
    secret2: Seq<char>,
    date2: Seq<char>,
    region2: Seq<char>,
    service2: Seq<char>,
)
    requires
        secret == secret2,
        date == date2,
        region == region2,
        service == service2,
    ensures
        signing_key_of(secret, date, region, service) == signing_key_of(
            secret2,
            date2,
            region2,
            service2,
        ),
{
}

} // verus!
