use ausgabenzettel::{
    decide_write, etag_of, fingerprint, path, path_is_valid, DocumentStore, WriteDecision,
    WriteError,
};

const HI_FINGERPRINT: &str = "0A4735281DB700223AF63ABC387C351F64EA6961A1EF955631DF08D96169E772";

fn body(parts: &[&[u8]]) -> Vec<Vec<u8>> {
    parts.iter().map(|p| p.to_vec()).collect()
}

#[test]
fn fingerprint_is_uppercase_sha256_hex() {
    assert_eq!(
        fingerprint(b""),
        "E3B0C44298FC1C149AFBF4C8996FB92427AE41E4649B934CA495991B7852B855"
    );
    assert_eq!(
        fingerprint(b"abc"),
        "BA7816BF8F01CFEA414140DE5DAE2223B00361A396177A9CB410FF61F20015AD"
    );
    assert_eq!(fingerprint(b"<p>hi</p>"), HI_FINGERPRINT);
}

#[test]
fn fingerprint_twice_is_the_same() {
    let content = b"some document".to_vec();
    assert_eq!(fingerprint(&content), fingerprint(&content));
}

#[test]
fn conditional_write_scenario() {
    let mut store = DocumentStore::new("current.html");
    assert_eq!(store.read_document("current.html"), None);
    assert_eq!(store.read_fingerprint("current.html"), "EMPTY");

    let f1 = store
        .write_document("current.html", Some("EMPTY"), &body(&[b"<p>hi</p>"]))
        .unwrap();
    assert_eq!(f1, HI_FINGERPRINT);
    assert_eq!(store.read_fingerprint("current.html"), f1);

    let stale = store.write_document("current.html", Some("EMPTY"), &body(&[b"<p>bye</p>"]));
    assert_eq!(stale, Err(WriteError::PreconditionFailed));
    assert_eq!(store.read_document("current.html"), Some(b"<p>hi</p>".to_vec()));

    let f2 = store
        .write_document("current.html", Some(&f1), &body(&[b"<p>bye</p>"]))
        .unwrap();
    assert_ne!(f2, f1);
    assert_eq!(
        f2,
        "9647F34433AD7A5E3762FCE954F368EEF7397D75B54B8163EBC794D217E6D319"
    );
    assert_eq!(store.read_document("current.html"), Some(b"<p>bye</p>".to_vec()));
}

#[test]
fn write_then_read_returns_chunks_in_order() {
    let mut store = DocumentStore::new("page.html");
    let r = store.write_document("page.html", Some("EMPTY"), &body(&[b"<p>", b"", b"hi</p>"]));
    assert_eq!(r, Ok(HI_FINGERPRINT.to_string()));
    assert_eq!(store.read_document("page.html"), Some(b"<p>hi</p>".to_vec()));
}

#[test]
fn empty_body_is_written() {
    let mut store = DocumentStore::new("current.html");
    let f = store.write_document("current.html", Some("EMPTY"), &Vec::new()).unwrap();
    assert_eq!(f, "E3B0C44298FC1C149AFBF4C8996FB92427AE41E4649B934CA495991B7852B855");
    assert_eq!(store.read_document("current.html"), Some(Vec::new()));
    assert_eq!(store.read_fingerprint("current.html"), f);
}

#[test]
fn missing_precondition_is_rejected() {
    let mut store = DocumentStore::new("current.html");
    let r = store.write_document("current.html", None, &body(&[b"x"]));
    assert_eq!(r, Err(WriteError::PreconditionMissing));
    assert_eq!(store.read_document("current.html"), None);

    store.write_document("current.html", Some("EMPTY"), &body(&[b"<p>hi</p>"])).unwrap();
    let r = store.write_document("current.html", None, &body(&[b"x"]));
    assert_eq!(r, Err(WriteError::PreconditionMissing));
    assert_eq!(store.read_document("current.html"), Some(b"<p>hi</p>".to_vec()));
}

#[test]
fn conflict_leaves_content_and_fingerprint() {
    let mut store = DocumentStore::new("current.html");
    store.write_document("current.html", Some("EMPTY"), &body(&[b"<p>hi</p>"])).unwrap();
    let r = store.write_document("current.html", Some("0A47"), &body(&[b"other"]));
    assert_eq!(r, Err(WriteError::PreconditionFailed));
    assert_eq!(store.read_document("current.html"), Some(b"<p>hi</p>".to_vec()));
    assert_eq!(store.read_fingerprint("current.html"), HI_FINGERPRINT);
}

#[test]
fn traversal_names_are_rejected() {
    let mut store = DocumentStore::new("current.html");
    for name in ["../x", "/x", "a/b", "", ".", ".."] {
        let r = store.write_document(name, Some("EMPTY"), &body(&[b"x"]));
        assert_eq!(r, Err(WriteError::InvalidName));
    }
    assert_eq!(store.read_document("current.html"), None);
}

#[test]
fn other_valid_name_is_rejected() {
    let mut store = DocumentStore::new("current.html");
    let r = store.write_document("other.html", Some("EMPTY"), &body(&[b"x"]));
    assert_eq!(r, Err(WriteError::InvalidName));
    assert_eq!(store.read_fingerprint("other.html"), "EMPTY");
    assert_eq!(store.read_document("other.html"), None);
}

#[test]
fn path_validation() {
    assert!(path_is_valid("current.html"));
    assert!(path_is_valid("..x"));
    assert!(!path_is_valid("../x"));
    assert!(!path_is_valid("/x"));
    assert!(!path_is_valid("a/b"));
    assert!(!path_is_valid("a/"));
    assert!(!path_is_valid(""));
    assert!(!path_is_valid("."));
    assert!(!path_is_valid(".."));
}

#[test]
fn document_location() {
    assert_eq!(path("current.html", true), "upload/current.html");
    assert_eq!(path("current.html", false), "initial/index.html");
    assert_eq!(path("/srv/current.html", true), "/srv/current.html");
}

#[test]
fn sidecar_is_trusted_and_absence_recomputes() {
    assert_eq!(etag_of(None, None), "EMPTY");
    assert_eq!(etag_of(Some("CACHED"), None), "EMPTY");
    assert_eq!(etag_of(Some("CACHED"), Some(b"<p>hi</p>")), "CACHED");
    assert_eq!(etag_of(None, Some(b"<p>hi</p>")), HI_FINGERPRINT);
}

#[test]
fn stored_sidecar_is_reported_verbatim() {
    let store = DocumentStore::from_parts(
        "current.html",
        Some(b"<p>hi</p>".to_vec()),
        Some("STALE".to_string()),
    );
    assert_eq!(store.read_fingerprint("current.html"), "STALE");
    let store = DocumentStore::from_parts("current.html", Some(b"<p>hi</p>".to_vec()), None);
    assert_eq!(store.read_fingerprint("current.html"), HI_FINGERPRINT);
}

#[test]
fn write_decisions() {
    assert_eq!(
        decide_write(None, "EMPTY"),
        WriteDecision::Reject(WriteError::PreconditionMissing)
    );
    assert_eq!(
        decide_write(Some("A"), "B"),
        WriteDecision::Reject(WriteError::PreconditionFailed)
    );
    assert_eq!(decide_write(Some("EMPTY"), "EMPTY"), WriteDecision::Accept);
}
