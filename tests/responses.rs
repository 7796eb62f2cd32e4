use openlibrary_rs::decode::{decode, decode_envelope, decode_flat, DecodeError, Response};
use openlibrary_rs::dispatch::{check_status, respond, RequestError, TransportError};
use openlibrary_rs::ResourceKind;

fn bytes(s: &str) -> Vec<u8> {
    s.as_bytes().to_vec()
}

#[test]
fn search_envelope_decodes() {
    let body = bytes(
        r#"{"numFound":1,"start":0,"numFoundExact":true,"docs":[{"key":"/works/43242","title":"test"}]}"#,
    );
    let envelope = decode_envelope(&body).unwrap();
    assert_eq!(envelope.num_found, 1);
    assert_eq!(envelope.start, 0);
    assert!(envelope.num_found_exact);
    assert_eq!(envelope.q, None);
    assert_eq!(envelope.docs.len(), 1);
    assert_eq!(envelope.docs[0]["title"], "test");
    assert_eq!(envelope.docs[0]["key"], "/works/43242");
}

#[test]
fn envelope_keeps_sparse_documents_sparse() {
    let body = bytes(
        r#"{"numFound":2,"start":10,"numFoundExact":false,"q":"dune","docs":[{"title":"a"},{"key":"/works/1"}]}"#,
    );
    let envelope = decode_envelope(&body).unwrap();
    assert_eq!(envelope.num_found, 2);
    assert_eq!(envelope.start, 10);
    assert!(!envelope.num_found_exact);
    assert_eq!(envelope.q, Some("dune".to_string()));
    assert!(envelope.docs[0].get("key").is_none());
    assert!(envelope.docs[1].get("title").is_none());
}

#[test]
fn envelope_shape_errors_carry_the_body() {
    for text in [
        r#"{"start":0,"numFoundExact":true,"docs":[]}"#,
        r#"{"numFound":-1,"start":0,"numFoundExact":true,"docs":[]}"#,
        r#"{"numFound":1,"start":0,"numFoundExact":"yes","docs":[]}"#,
        r#"{"numFound":1,"start":0,"numFoundExact":true,"docs":{}}"#,
        r#"{"numFound":1,"start":0,"numFoundExact":true,"docs":[1]}"#,
        r#"[1,2]"#,
        r#"{"numFound":"#,
    ] {
        let body = bytes(text);
        assert_eq!(decode_envelope(&body).unwrap_err(), DecodeError { body: body.clone() });
    }
}

#[test]
fn flat_records_decode() {
    let body = bytes(r#"{"title":"test","key":"/works/OL45883W"}"#);
    let record = decode_flat(&body).unwrap();
    assert_eq!(record["title"], "test");
    assert_eq!(record["key"], "/works/OL45883W");
}

#[test]
fn flat_errors_carry_the_body() {
    for text in ["not json", "[]", "42", ""] {
        let body = bytes(text);
        assert_eq!(decode_flat(&body).unwrap_err(), DecodeError { body: body.clone() });
    }
}

#[test]
fn decoding_follows_the_kind() {
    let body = bytes(r#"{"numFound":0,"start":0,"numFoundExact":true,"docs":[]}"#);
    match decode(ResourceKind::Search, &body).unwrap() {
        Response::Envelope(e) => assert!(e.docs.is_empty()),
        Response::Record(_) => panic!("expected an envelope"),
    }
    match decode(ResourceKind::Subject, &body).unwrap() {
        Response::Record(v) => assert_eq!(v["numFound"], 0),
        Response::Envelope(_) => panic!("expected a record"),
    }
    let record = bytes(r#"{"name":"love"}"#);
    assert!(decode(ResourceKind::Search, &record).is_err());
    assert!(decode(ResourceKind::AuthorProfile, &record).is_ok());
}

#[test]
fn status_decides_before_decoding() {
    assert_eq!(check_status(200, bytes("x")), Ok(bytes("x")));
    assert_eq!(check_status(299, bytes("x")), Ok(bytes("x")));
    assert_eq!(check_status(199, bytes("x")), Err(TransportError::Status(199)));
    assert_eq!(check_status(300, bytes("x")), Err(TransportError::Status(300)));
    assert_eq!(check_status(500, bytes("x")), Err(TransportError::Status(500)));

    let body = bytes(r#"{"numFound":1,"start":0,"numFoundExact":true,"docs":[]}"#);
    match respond(ResourceKind::Search, 500, body.clone()) {
        Err(RequestError::Transport(TransportError::Status(500))) => {}
        other => panic!("expected a transport error, got {:?}", other),
    }
    match respond(ResourceKind::Search, 200, bytes("oops")) {
        Err(RequestError::Decode(e)) => assert_eq!(e.body, bytes("oops")),
        other => panic!("expected a decode error, got {:?}", other),
    }
    assert!(respond(ResourceKind::Search, 200, body).is_ok());
}
