use chill::document::DocumentBuilder;
use chill::error::Error;
use chill::json::JsonValue;
use chill::path::DatabaseName;
use chill::path::DocumentId;
use chill::path::DocumentPath;
use chill::path::Revision;
use chill::read_document::AttachmentContent;
use chill::read_document::ReadDocument;
use chill::testing::MockResponse;
use chill::testing::MockTransport;
use chill::transport::Action;
use chill::transport::RequestOptions;
use chill::transport::StatusCode;
use chill::transport::Transport;

#[test]
fn make_request_default() {
    let transport = MockTransport::new();
    let expected = (
        {
            let options = RequestOptions::new().with_accept_json();
            transport.get(vec!["foo", "bar"], options).unwrap()
        },
        DatabaseName::from("foo"),
    );
    let got = {
        let action = ReadDocument::new(&transport, "/foo/bar");
        action.make_request().unwrap()
    };
    assert_eq!(expected, got);
}

#[test]
fn make_request_with_revision() {
    let transport = MockTransport::new();
    let rev = Revision::parse("1-1234567890abcdef1234567890abcdef").unwrap();
    let expected = (
        {
            let options = RequestOptions::new().with_accept_json().with_revision_query(&rev);
            transport.get(vec!["foo", "bar"], options).unwrap()
        },
        DatabaseName::from("foo"),
    );
    let got = {
        let action = ReadDocument::new(&transport, "/foo/bar").with_revision(&rev);
        action.make_request().unwrap()
    };
    assert_eq!(expected, got);
}

#[test]
fn make_request_with_attachment_content_none() {
    let transport = MockTransport::new();
    let expected = (
        {
            let options = RequestOptions::new().with_accept_json().with_attachments_query(false);
            transport.get(vec!["foo", "bar"], options).unwrap()
        },
        DatabaseName::from("foo"),
    );
    let got = {
        let action = ReadDocument::new(&transport, "/foo/bar")
            .with_attachment_content(AttachmentContent::Stubs);
        action.make_request().unwrap()
    };
    assert_eq!(expected, got);
}

#[test]
fn make_request_with_attachment_content_all() {
    let transport = MockTransport::new();
    let expected = (
        {
            let options = RequestOptions::new().with_accept_json().with_attachments_query(true);
            transport.get(vec!["foo", "bar"], options).unwrap()
        },
        DatabaseName::from("foo"),
    );
    let got = {
        let action = ReadDocument::new(&transport, "/foo/bar")
            .with_attachment_content(AttachmentContent::All);
        action.make_request().unwrap()
    };
    assert_eq!(expected, got);
}

#[test]
fn take_response_ok() {
    let db_name = DatabaseName::from("foo");
    let doc_id = DocumentId::from("bar");
    let rev = Revision::parse("1-1234567890abcdef1234567890abcdef").unwrap();
    let response = MockResponse::new(StatusCode::Success).with_json_body(JsonValue::Object(vec![
        ("_id".to_string(), JsonValue::Str(doc_id.to_string())),
        ("_rev".to_string(), JsonValue::Str(rev.to_string())),
        ("field_1".to_string(), JsonValue::Int(42)),
        ("field_2".to_string(), JsonValue::Str("hello".to_string())),
    ]));

    let expected = DocumentBuilder::new((db_name.clone(), doc_id), rev)
        .insert("field_1", JsonValue::Int(42))
        .insert("field_2", JsonValue::Str("hello".to_string()))
        .build();

    let got = ReadDocument::<MockTransport, DocumentPath>::take_response(
        response,
        DatabaseName::from(db_name),
    )
    .unwrap();
    assert_eq!(expected, got);
}

#[test]
fn take_response_not_found() {
    let error = "not_found";
    let reason = "no_db_file";
    let response = MockResponse::new(StatusCode::NotFound).with_json_body(JsonValue::Object(vec![
        ("error".to_string(), JsonValue::Str(error.to_string())),
        ("reason".to_string(), JsonValue::Str(reason.to_string())),
    ]));
    match ReadDocument::<MockTransport, DocumentPath>::take_response(
        response,
        DatabaseName::from("foo"),
    ) {
        Err(Error::NotFound(ref error_response))
            if error == error_response.error() && reason == error_response.reason() => (),
        x => panic!("unexpected result: {:?}", x),
    }
}

#[test]
fn take_response_unauthorized() {
    let error = "unauthorized";
    let reason = "Authentication required.";
    let response = MockResponse::new(StatusCode::Unauthorized).with_json_body(JsonValue::Object(
        vec![
            ("error".to_string(), JsonValue::Str(error.to_string())),
            ("reason".to_string(), JsonValue::Str(reason.to_string())),
        ],
    ));
    match ReadDocument::<MockTransport, DocumentPath>::take_response(
        response,
        DatabaseName::from("foo"),
    ) {
        Err(Error::Unauthorized(ref error_response))
            if error == error_response.error() && reason == error_response.reason() => (),
        x => panic!("unexpected result: {:?}", x),
    }
}
