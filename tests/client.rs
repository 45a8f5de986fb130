use hmac::{Hmac, Mac};
use my_s3::{
    amz_timestamp, body_to_read, canonical_request, detect_error_from_body, generic_error,
    get_signature_key, handle_error, payload_hash, populate_headers, signed_host, to_decimal,
    to_hex, BodyRead, ErrorCodeLookup, HttpVerb, ResponseBody, S3Client, S3Error, TagSpan,
    RETRIES,
};
use sha2::{Digest, Sha256};

const BUCKET_EXISTS_XML: &str = "<Error><Code>BucketAlreadyExists</Code><Message>The requested bucket name is not available.</Message><Resource>chat-bot-files-dev</Resource><RequestId>2fd9b10e5df517b3be17b5df4fe3d8c4</RequestId></Error>";

fn code_tags() -> ErrorCodeLookup {
    // `<Code>` spans bytes 7..=12 and `</Code>` starts at byte 32.
    ErrorCodeLookup::CodeTags(
        TagSpan { start_pos: 7, end_pos: 12 },
        TagSpan { start_pos: 32, end_pos: 38 },
    )
}

fn client() -> S3Client {
    S3Client {
        access_key: "AKIDEXAMPLE".to_string(),
        secret_key: "wJalrXUtnFEMI/K7MDENG+bPxRfiCYEXAMPLEKEY".to_string(),
        region: "us-east-1".to_string(),
        endpoint: "https://examplebucket.s3.amazonaws.com".to_string(),
    }
}

fn other_message(e: S3Error) -> String {
    match e {
        S3Error::Other(m) => m,
        _ => panic!("expected a generic error"),
    }
}

fn reference_hmac(key: &[u8], msg: &[u8]) -> Vec<u8> {
    let mut mac = Hmac::<Sha256>::new_from_slice(key).unwrap();
    mac.update(msg);
    mac.finalize().into_bytes().to_vec()
}

fn reference_hex(b: &[u8]) -> String {
    b.iter().map(|x| format!("{:02x}", x)).collect()
}

#[test]
fn detect_bucket_exists_error() {
    let xml = BUCKET_EXISTS_XML;
    let s3_error = detect_error_from_body(xml.as_bytes().to_vec(), &code_tags());
    assert!(s3_error.is_bucket_already_exists());
}

#[test]
fn other_code_is_generic_and_keeps_body() {
    let xml = "<Error><Code>AccessDenied</Code></Error>";
    let lookup = ErrorCodeLookup::CodeTags(
        TagSpan { start_pos: 7, end_pos: 12 },
        TagSpan { start_pos: 25, end_pos: 31 },
    );
    let e = detect_error_from_body(xml.as_bytes().to_vec(), &lookup);
    assert!(!e.is_bucket_already_exists());
    assert_eq!(other_message(e), xml);
}

#[test]
fn tag_positions_out_of_range_are_generic() {
    let body = b"<Error><Code>Bucket".to_vec();
    let e = detect_error_from_body(body, &code_tags());
    assert_eq!(other_message(e), "<Error><Code>Bucket");
}

#[test]
fn body_that_is_not_xml() {
    let e = detect_error_from_body(b"not xml".to_vec(), &ErrorCodeLookup::NotXml);
    assert_eq!(other_message(e), "Expect body as XML. But body is: not xml");
}

#[test]
fn body_that_cannot_be_searched() {
    let lookup = ErrorCodeLookup::Unreadable("unexpected end".to_string());
    let e = detect_error_from_body(b"<Error><Co".to_vec(), &lookup);
    assert_eq!(other_message(e), "Err: unexpected end. Invalid XML: <Error><Co");
}

#[test]
fn body_without_error_code() {
    let e = detect_error_from_body(b"<Other/>".to_vec(), &ErrorCodeLookup::NoCode);
    assert_eq!(other_message(e), "Invalid XML: <Other/>");
}

#[test]
fn body_whose_tags_cannot_be_read() {
    let e = detect_error_from_body(b"<Error><Code>".to_vec(), &ErrorCodeLookup::TagsMissing);
    assert_eq!(other_message(e), "<Error><Code>");
}

#[test]
fn invalid_utf8_body_is_decoded_lossily() {
    let body = vec![b'a', 0xff, b'b'];
    let e = detect_error_from_body(body, &ErrorCodeLookup::NoCode);
    assert_eq!(other_message(e), "Invalid XML: a\u{FFFD}b");
}

#[test]
fn hex_and_decimal() {
    assert_eq!(to_hex(&[]), "");
    assert_eq!(to_hex(&[0x00, 0x0f, 0xa5, 0xff]), "000fa5ff");
    assert_eq!(to_decimal(0), "0");
    assert_eq!(to_decimal(409), "409");
    assert_eq!(to_decimal(18446744073709551615), "18446744073709551615");
}

#[test]
fn payload_hash_matches_known_digests() {
    assert_eq!(
        payload_hash(b""),
        "e3b0c44298fc1c149afbf4c8996fb92427ae41e4649b934ca495991b7852b855"
    );
    assert_eq!(
        payload_hash(b"abc"),
        "ba7816bf8f01cfea414140de5dae2223b00361a396177a9cb410ff61f20015ad"
    );
    let payload = b"some object bytes".to_vec();
    assert_eq!(payload_hash(&payload), payload_hash(&payload.clone()));
    assert_eq!(payload_hash(&payload), reference_hex(&Sha256::digest(&payload)));
}

#[test]
fn signing_key_matches_known_vector() {
    let k = get_signature_key(
        "wJalrXUtnFEMI/K7MDENG+bPxRfiCYEXAMPLEKEY",
        "20120215",
        "us-east-1",
        "iam",
    )
    .unwrap();
    assert_eq!(
        to_hex(&k),
        "f4780e2d9f65fa895f9c67b32ce1baf0b0d8a43505a000a1a9e090d414db404d"
    );
}

#[test]
fn signing_key_is_deterministic() {
    let a = get_signature_key("secret", "20240102", "eu-west-1", "s3").unwrap();
    let b = get_signature_key("secret", "20240102", "eu-west-1", "s3").unwrap();
    assert_eq!(a.len(), 32);
    assert_eq!(a, b);
    let c = get_signature_key("secret", "20240103", "eu-west-1", "s3").unwrap();
    assert_ne!(a, c);
}

#[test]
fn timestamp_from_rfc3339() {
    assert_eq!(amz_timestamp("2024-01-02T03:04:05.678+00:00"), "20240102T030405Z");
    assert_eq!(amz_timestamp("2024-01-02T03:04:05"), "20240102T030405Z");
    assert_eq!(amz_timestamp("2024"), "2024Z");
}

#[test]
fn host_without_scheme() {
    assert_eq!(signed_host("https://s3.example.com"), "s3.example.com");
    assert_eq!(signed_host("https://https://s3.example.com"), "s3.example.com");
    assert_eq!(signed_host("http://s3.example.com"), "http://s3.example.com");
    assert_eq!(signed_host(""), "");
}

#[test]
fn canonical_request_layout() {
    let c = canonical_request("PUT", "/b/k", "h.example", "abcd", "20240102T030405Z");
    assert_eq!(
        c,
        "PUT\n/b/k\n\nhost:h.example\nx-amz-content-sha256:abcd\nx-amz-date:20240102T030405Z\n\nhost;x-amz-content-sha256;x-amz-date\nabcd"
    );
}

#[test]
fn authorization_matches_reference_computation() {
    let s3 = client();
    let ts = "20130524T000000Z";
    let content = b"Welcome to Amazon S3.".to_vec();
    let h = populate_headers(&s3, "PUT", "test", Some("test$file.text"), &content, ts).unwrap();

    let payload = reference_hex(&Sha256::digest(&content));
    let canonical = format!(
        "PUT\n/test/test$file.text\n\nhost:examplebucket.s3.amazonaws.com\nx-amz-content-sha256:{}\nx-amz-date:{}\n\nhost;x-amz-content-sha256;x-amz-date\n{}",
        payload, ts, payload
    );
    let scope = "20130524/us-east-1/s3/aws4_request";
    let to_sign = format!(
        "AWS4-HMAC-SHA256\n{}\n{}\n{}",
        ts,
        scope,
        reference_hex(&Sha256::digest(canonical.as_bytes()))
    );
    let k = reference_hmac(b"AWS4wJalrXUtnFEMI/K7MDENG+bPxRfiCYEXAMPLEKEY", b"20130524");
    let k = reference_hmac(&k, b"us-east-1");
    let k = reference_hmac(&k, b"s3");
    let k = reference_hmac(&k, b"aws4_request");
    let signature = reference_hex(&reference_hmac(&k, to_sign.as_bytes()));

    assert_eq!(h.content_sha256, payload);
    assert_eq!(h.amz_date, ts);
    assert_eq!(
        h.authorization,
        format!(
            "AWS4-HMAC-SHA256 Credential=AKIDEXAMPLE/{},SignedHeaders=host;x-amz-content-sha256;x-amz-date,Signature={}",
            scope, signature
        )
    );
    let pairs = h.to_pairs();
    assert_eq!(pairs[0], ("X-Amz-Content-Sha256".to_string(), payload));
    assert_eq!(pairs[1], ("X-Amz-Date".to_string(), ts.to_string()));
    assert_eq!(pairs[2].0, "Authorization");
}

#[test]
fn signature_depends_on_payload() {
    let s3 = client();
    let ts = "20130524T000000Z";
    let a = populate_headers(&s3, "PUT", "b", Some("k"), b"one", ts).unwrap();
    let b = populate_headers(&s3, "PUT", "b", Some("k"), b"two", ts).unwrap();
    let a2 = populate_headers(&s3, "PUT", "b", Some("k"), b"one", ts).unwrap();
    assert_ne!(a.authorization, b.authorization);
    assert_eq!(a.authorization, a2.authorization);
}

#[test]
fn body_to_read_by_status() {
    assert!(matches!(body_to_read::<()>(200), BodyRead::Skip));
    assert!(matches!(body_to_read::<Vec<u8>>(200), BodyRead::Bytes));
    assert!(matches!(body_to_read::<()>(409), BodyRead::ErrorXml));
    assert!(matches!(body_to_read::<Vec<u8>>(409), BodyRead::ErrorXml));
    assert!(matches!(body_to_read::<()>(404), BodyRead::Text));
    assert!(matches!(body_to_read::<Vec<u8>>(500), BodyRead::Text));
}

#[test]
fn ok_without_body() {
    let r = handle_error::<()>(200, ResponseBody::NotRead);
    assert!(r.is_ok());
}

#[test]
fn ok_with_exact_body() {
    let r = handle_error::<Vec<u8>>(200, ResponseBody::Bytes(vec![1, 2, 3, 0]));
    assert_eq!(r.unwrap(), vec![1, 2, 3, 0]);
}

#[test]
fn conflict_with_bucket_exists() {
    let body = ResponseBody::ErrorXml(BUCKET_EXISTS_XML.as_bytes().to_vec(), code_tags());
    let r = handle_error::<()>(409, body);
    assert!(r.unwrap_err().is_bucket_already_exists());
}

#[test]
fn create_bucket_twice_on_existing_bucket() {
    for _ in 0..2 {
        let body = ResponseBody::ErrorXml(BUCKET_EXISTS_XML.as_bytes().to_vec(), code_tags());
        let r = handle_error::<()>(409, body);
        assert!(r.unwrap_err().is_bucket_already_exists());
    }
}

#[test]
fn conflict_with_invalid_xml() {
    let body = ResponseBody::ErrorXml(b"<<<".to_vec(), ErrorCodeLookup::NotXml);
    let r = handle_error::<Vec<u8>>(409, body);
    let m = other_message(r.unwrap_err());
    assert!(m.ends_with("<<<"));
}

#[test]
fn other_status_is_generic() {
    let r = handle_error::<()>(404, ResponseBody::Text("NoSuchKey".to_string()));
    assert_eq!(other_message(r.unwrap_err()), "Status Code: 404. Err: NoSuchKey");
    let r = handle_error::<Vec<u8>>(500, ResponseBody::Text(String::new()));
    assert_eq!(other_message(r.unwrap_err()), "Status Code: 500. Err: ");
    let e = generic_error(403, "denied");
    assert_eq!(other_message(e), "Status Code: 403. Err: denied");
}

#[test]
fn upload_request_sends_the_hashed_content() {
    let s3 = client();
    let q = s3.upload_file_request("b", "k", b"data".to_vec(), "20240102T030405Z").unwrap();
    assert!(matches!(q.verb, HttpVerb::Put));
    assert_eq!(q.path_segments, vec!["b".to_string(), "k".to_string()]);
    assert_eq!(q.retries, RETRIES);
    assert_eq!(q.body, Some(b"data".to_vec()));
    assert_eq!(q.headers.content_sha256, payload_hash(b"data"));
    let direct = populate_headers(&s3, "PUT", "b", Some("k"), b"data", "20240102T030405Z").unwrap();
    assert_eq!(q.headers.authorization, direct.authorization);
}

#[test]
fn download_delete_and_create_requests() {
    let s3 = client();
    let ts = "20240102T030405Z";
    let d = s3.download_file_request("b", "k", ts).unwrap();
    assert!(matches!(d.verb, HttpVerb::Get));
    assert!(d.body.is_none());
    assert_eq!(d.headers.content_sha256, payload_hash(b""));

    let x = s3.delete_file_request("b", "k", ts).unwrap();
    assert!(matches!(x.verb, HttpVerb::Get));
    let signed_delete = populate_headers(&s3, "DELETE", "b", Some("k"), b"", ts).unwrap();
    assert_eq!(x.headers.authorization, signed_delete.authorization);
    assert_ne!(x.headers.authorization, d.headers.authorization);

    let c = s3.create_bucket_request("b", ts).unwrap();
    assert!(matches!(c.verb, HttpVerb::Put));
    assert_eq!(c.path_segments, vec!["b".to_string()]);
    let signed_create = populate_headers(&s3, "PUT", "b", None, b"", ts).unwrap();
    assert_eq!(c.headers.authorization, signed_create.authorization);
}
