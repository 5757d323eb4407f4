use chill::error::Error;
use chill::error::JsonDecodeCause;
use chill::json::JsonValue;
use chill::path::parse_document_path;
use chill::path::DatabaseName;
use chill::path::DocumentId;
use chill::path::DocumentPath;
use chill::path::Revision;
use chill::read_document::ReadDocument;
use chill::testing::MockResponse;
use chill::testing::MockTransport;
use chill::transport::Accept;
use chill::transport::Action;
use chill::transport::Method;
use chill::transport::RequestOptions;
use chill::transport::StatusCode;
use chill::transport::Transport;

const REV: &str = "1-1234567890abcdef1234567890abcdef";

#[test]
fn rendered_request_carries_exactly_what_was_set() {
    let transport = MockTransport::new();
    let rev = Revision::parse(REV).unwrap();
    let options = RequestOptions::new()
        .with_revision_query(&rev)
        .with_attachments_query(true)
        .with_json_body(JsonValue::Int(5));
    let req = transport
        .request(Method::Put, vec!["db", "doc"], options)
        .unwrap();
    assert_eq!(req.method, Method::Put);
    assert_eq!(req.path, vec!["db".to_string(), "doc".to_string()]);
    assert_eq!(req.accept, None);
    assert_eq!(req.revision_query, Some(rev));
    assert_eq!(req.attachments_query, Some(true));
    assert_eq!(req.body, Some(JsonValue::Int(5)));
}

#[test]
fn default_read_request_has_only_json_accept() {
    let transport = MockTransport::new();
    let (req, db_name) = ReadDocument::new(&transport, "/foo/bar")
        .make_request()
        .unwrap();
    assert_eq!(req.method, Method::Get);
    assert_eq!(req.path, vec!["foo".to_string(), "bar".to_string()]);
    assert_eq!(req.accept, Some(Accept::Json));
    assert_eq!(req.revision_query, None);
    assert_eq!(req.attachments_query, None);
    assert_eq!(req.body, None);
    assert_eq!(db_name, DatabaseName::from("foo"));
}

#[test]
fn revision_modifier_adds_exactly_one_rev_value() {
    let transport = MockTransport::new();
    let rev = Revision::parse(REV).unwrap();
    let (req, _) = ReadDocument::new(&transport, "/foo/bar")
        .with_revision(&rev)
        .make_request()
        .unwrap();
    assert_eq!(req.revision_query, Some(rev));
    let (req, _) = ReadDocument::new(&transport, "/foo/bar")
        .make_request()
        .unwrap();
    assert_eq!(req.revision_query, None);
}

#[test]
fn make_request_is_deterministic() {
    let transport = MockTransport::new();
    let rev = Revision::parse(REV).unwrap();
    let first = ReadDocument::new(&transport, "/foo/bar")
        .with_revision(&rev)
        .make_request()
        .unwrap();
    let second = ReadDocument::new(&transport, "/foo/bar")
        .with_revision(&rev)
        .make_request()
        .unwrap();
    assert_eq!(first, second);
}

#[test]
fn make_request_accepts_assembled_path() {
    let transport = MockTransport::new();
    let path = DocumentPath::new(DatabaseName::from("foo"), DocumentId::from("bar"));
    let (req, db_name) = ReadDocument::new(&transport, path).make_request().unwrap();
    assert_eq!(req.path, vec!["foo".to_string(), "bar".to_string()]);
    assert_eq!(db_name, DatabaseName::from("foo"));
}

#[test]
fn make_request_rejects_malformed_paths() {
    let transport = MockTransport::new();
    for bad in ["", "foo/bar", "/foo", "/foo/", "//bar", "/foo/bar/baz", "/a/b/"] {
        let got = ReadDocument::new(&transport, bad).make_request();
        assert_eq!(got, Err(Error::PathParse), "path {:?}", bad);
    }
}

#[test]
fn parse_document_path_splits_segments() {
    let path = parse_document_path("/foo/bar").unwrap();
    assert_eq!(*path.database_name(), DatabaseName::from("foo"));
    assert_eq!(*path.document_id(), DocumentId::from("bar"));
}

#[test]
fn revision_parse_accepts_canonical_form() {
    let rev = Revision::parse(REV).unwrap();
    assert_eq!(rev.to_string(), REV.to_string());
    let upper = Revision::parse("42-ABCDEF1234567890ABCDEF1234567890").unwrap();
    assert_eq!(upper.as_str(), "42-ABCDEF1234567890ABCDEF1234567890");
}

#[test]
fn revision_parse_rejects_malformed_tokens() {
    for bad in [
        "",
        "1",
        "1-",
        "-1234567890abcdef1234567890abcdef",
        "x-1234567890abcdef1234567890abcdef",
        "1-1234567890abcdef1234567890abcde",
        "1-1234567890abcdef1234567890abcdefa",
        "1-1234567890abcdef1234567890abcdeg",
        "11234567890abcdef1234567890abcdef",
    ] {
        assert_eq!(Revision::parse(bad), Err(Error::RevisionParse), "token {:?}", bad);
    }
}

#[test]
fn take_response_success_without_body_is_not_json() {
    let response = MockResponse::new(StatusCode::Success);
    let got = ReadDocument::<MockTransport, DocumentPath>::take_response(
        response,
        DatabaseName::from("foo"),
    );
    assert_eq!(got, Err(Error::ResponseNotJson));
}

#[test]
fn take_response_success_with_malformed_bodies() {
    let cases = [
        (JsonValue::Int(3), JsonDecodeCause::NotObject),
        (JsonValue::Object(vec![]), JsonDecodeCause::MissingId),
        (
            JsonValue::Object(vec![("_id".to_string(), JsonValue::Int(1))]),
            JsonDecodeCause::IdNotString,
        ),
        (
            JsonValue::Object(vec![("_id".to_string(), JsonValue::Str("a".to_string()))]),
            JsonDecodeCause::MissingRevision,
        ),
        (
            JsonValue::Object(vec![
                ("_id".to_string(), JsonValue::Str("a".to_string())),
                ("_rev".to_string(), JsonValue::Null),
            ]),
            JsonDecodeCause::RevisionNotString,
        ),
        (
            JsonValue::Object(vec![
                ("_id".to_string(), JsonValue::Str("a".to_string())),
                ("_rev".to_string(), JsonValue::Str("1-short".to_string())),
            ]),
            JsonDecodeCause::BadRevision,
        ),
    ];
    for (body, cause) in cases {
        let response = MockResponse::new(StatusCode::Success).with_json_body(body);
        let got = ReadDocument::<MockTransport, DocumentPath>::take_response(
            response,
            DatabaseName::from("foo"),
        );
        assert_eq!(got, Err(Error::JsonDecode { cause }));
    }
}

#[test]
fn take_response_conflict_carries_server_strings() {
    let response = MockResponse::new(StatusCode::Conflict).with_json_body(JsonValue::Object(vec![
        ("error".to_string(), JsonValue::Str("conflict".to_string())),
        (
            "reason".to_string(),
            JsonValue::Str("Document update conflict.".to_string()),
        ),
    ]));
    match ReadDocument::<MockTransport, DocumentPath>::take_response(
        response,
        DatabaseName::from("foo"),
    ) {
        Err(Error::Conflict(ref error_response))
            if error_response.error() == "conflict"
                && error_response.reason() == "Document update conflict." => (),
        x => panic!("unexpected result: {:?}", x),
    }
}

#[test]
fn take_response_conflict_with_malformed_report_keeps_body() {
    let response = MockResponse::new(StatusCode::Conflict).with_json_body(JsonValue::Null);
    let got = ReadDocument::<MockTransport, DocumentPath>::take_response(
        response,
        DatabaseName::from("foo"),
    );
    assert_eq!(
        got,
        Err(Error::ServerResponse { status: StatusCode::Conflict, body: Some(JsonValue::Null) })
    );
}

#[test]
fn take_response_unknown_status_keeps_status_and_body() {
    let response =
        MockResponse::new(StatusCode::Other(500)).with_json_body(JsonValue::Str("oops".to_string()));
    let got = ReadDocument::<MockTransport, DocumentPath>::take_response(
        response,
        DatabaseName::from("foo"),
    );
    assert_eq!(
        got,
        Err(Error::ServerResponse {
            status: StatusCode::Other(500),
            body: Some(JsonValue::Str("oops".to_string())),
        })
    );
}

#[test]
fn take_response_not_found_with_malformed_report_keeps_body() {
    let body = JsonValue::Object(vec![("error".to_string(), JsonValue::Str("x".to_string()))]);
    let response = MockResponse::new(StatusCode::NotFound).with_json_body(body);
    let got = ReadDocument::<MockTransport, DocumentPath>::take_response(
        response,
        DatabaseName::from("foo"),
    );
    let same_body = JsonValue::Object(vec![("error".to_string(), JsonValue::Str("x".to_string()))]);
    assert_eq!(
        got,
        Err(Error::ServerResponse { status: StatusCode::NotFound, body: Some(same_body) })
    );
}

#[test]
fn take_response_first_identity_entries_win() {
    let response = MockResponse::new(StatusCode::Success).with_json_body(JsonValue::Object(vec![
        ("_id".to_string(), JsonValue::Str("a".to_string())),
        ("_rev".to_string(), JsonValue::Str(REV.to_string())),
        ("_id".to_string(), JsonValue::Str("b".to_string())),
        ("x".to_string(), JsonValue::Bool(true)),
    ]));
    let got = ReadDocument::<MockTransport, DocumentPath>::take_response(
        response,
        DatabaseName::from("db"),
    )
    .unwrap();
    assert_eq!(*got.id(), DocumentId::from("a"));
    assert_eq!(
        *got.content(),
        vec![("x".to_string(), JsonValue::Bool(true))]
    );
}

#[test]
fn round_trip_reproduces_all_components() {
    let response = MockResponse::new(StatusCode::Success).with_json_body(JsonValue::Object(vec![
        ("_id".to_string(), JsonValue::Str("doc-7".to_string())),
        ("_rev".to_string(), JsonValue::Str(REV.to_string())),
        ("count".to_string(), JsonValue::Int(3)),
        ("name".to_string(), JsonValue::Str("n".to_string())),
        ("tags".to_string(), JsonValue::Array(vec![JsonValue::Null, JsonValue::Bool(false)])),
    ]));
    let got = ReadDocument::<MockTransport, DocumentPath>::take_response(
        response,
        DatabaseName::from("things"),
    )
    .unwrap();
    assert_eq!(*got.database_name(), DatabaseName::from("things"));
    assert_eq!(*got.id(), DocumentId::from("doc-7"));
    assert_eq!(got.revision().as_str(), REV);
    assert_eq!(
        *got.content(),
        vec![
            ("count".to_string(), JsonValue::Int(3)),
            ("name".to_string(), JsonValue::Str("n".to_string())),
            ("tags".to_string(), JsonValue::Array(vec![JsonValue::Null, JsonValue::Bool(false)])),
        ]
    );
}
