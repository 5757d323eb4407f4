//! The action that reads one document: `GET` on the document's path, with
//! the optional revision and attachment-content modifiers.

use vstd::prelude::*;
use vstd::pervasive::arbitrary;

use crate::document::Document;
use crate::document::DocumentModel;
use crate::document::decode_document;
use crate::document::decode_document_spec;
use crate::document::document_from_decoded_spec;
use crate::error::Error;
use crate::error::conflict_spec;
use crate::error::not_found_spec;
use crate::error::unauthorized_spec;
use crate::json::JsonValue;
use crate::json::is_meta_key;
use crate::json::content_entries;
use crate::json::lemma_content_entries_append_clean;
use crate::json::lemma_lookup_key_at;
use crate::path::DatabaseName;
use crate::path::IntoDocumentPath;
use crate::path::Revision;
use crate::path::is_revision_seq;
use crate::transport::Accept;
use crate::transport::Action;
use crate::transport::Method;
use crate::transport::OptionsModel;
use crate::transport::RequestModel;
use crate::transport::RequestOptions;
use crate::transport::Request;
use crate::transport::Response;
use crate::transport::StatusCode;
use crate::transport::Transport;

verus! {

/// Which attachments the server should send content for, rendered as the
/// `attachments` query value. By default the server sends content-free
/// stubs for every attachment.
#[derive(Debug, PartialEq, Eq, Structural, Clone, Copy)]
pub enum AttachmentContent {
    /// Content for no attachment: stubs only.
    Stubs,
    /// Content for all attachments.
    All,
}

/// The options a read renders: always the JSON accept; a `rev` query value
/// exactly when a revision modifier was given; an `attachments` query
/// value exactly when an attachment-content modifier was given; never a
/// body.
pub open spec fn read_document_options(
    revision: Option<Seq<char>>,
    attachment_content: Option<AttachmentContent>,
) -> OptionsModel {
    OptionsModel {
        accept: Some(Accept::Json),
        revision,
        attachments: match attachment_content {
            None => None,
            Some(AttachmentContent::Stubs) => Some(false),
            Some(AttachmentContent::All) => Some(true),
        },
        body: None,
    }
}

/// The outcome a read owes for a given status, body and carried database
/// name: a success body is decoded and joined with the name; a not-found,
/// unauthorized or conflict status becomes the named error carrying the
/// server's own strings; anything else keeps status and body for
/// diagnosis.
pub open spec fn read_document_outcome(
    status: StatusCode,
    body: Option<JsonValue>,
    db_name: Seq<char>,
) -> Result<DocumentModel, Error> {
    match status {
        StatusCode::Success => match body {
            None => Err(Error::ResponseNotJson),
            Some(v) => match decode_document_spec(v) {
                Ok(decoded) => Ok(document_from_decoded_spec(db_name, decoded)),
                Err(e) => Err(e),
            },
        },
        StatusCode::NotFound => Err(not_found_spec(body)),
        StatusCode::Unauthorized => Err(unauthorized_spec(body)),
        StatusCode::Conflict => Err(conflict_spec(body)),
        _ => Err(Error::ServerResponse { status, body }),
    }
}

/// Reads a document from the server: a `GET` on the document's path. The
/// value is consumed when the request is built and can never run twice.
pub struct ReadDocument<'a, T: Transport + 'a, P: IntoDocumentPath> {
    pub transport: &'a T,
    pub doc_path: P,
    pub revision: Option<&'a Revision>,
    pub attachment_content: Option<AttachmentContent>,
}

impl<'a, T: Transport + 'a, P: IntoDocumentPath> ReadDocument<'a, T, P> {
    /// The options this read plans.
    pub open spec fn options_spec(self) -> OptionsModel {
        read_document_options(
            match self.revision {
                None => None,
                Some(r) => Some(r@),
            },
            self.attachment_content,
        )
    }

    /// A read of the given document, with no modifiers.
    pub fn new(transport: &'a T, doc_path: P) -> (action: Self)
        ensures
            action.transport == transport,
            action.doc_path == doc_path,
            action.revision is None,
            action.attachment_content is None,
    {
        ReadDocument { transport, doc_path, revision: None, attachment_content: None }
    }

    /// Asks for the document as of the given revision.
    pub fn with_revision(self, revision: &'a Revision) -> (action: Self)
        ensures
            action == (ReadDocument { revision: Some(revision), ..self }),
    {
        ReadDocument { revision: Some(revision), ..self }
    }

    /// Asks the server to send, or withhold, attachment content.
    pub fn with_attachment_content(self, attachment_content: AttachmentContent) -> (action: Self)
        ensures
            action == (ReadDocument { attachment_content: Some(attachment_content), ..self }),
    {
        ReadDocument { attachment_content: Some(attachment_content), ..self }
    }
}

impl<'a, T: Transport + 'a, P: IntoDocumentPath> Action<T> for ReadDocument<'a, T, P> {
    type Output = Document;

    type State = DatabaseName;

    open spec fn forced_failure(self) -> Option<Error> {
        match self.doc_path.path_spec() {
            Err(e) => Some(e),
            Ok(_) => None,
        }
    }

    open spec fn planned_request(self) -> RequestModel {
        match self.doc_path.path_spec() {
            Ok(segments) => RequestModel {
                method: Method::Get,
                path: segments,
                options: self.options_spec(),
            },
            Err(_) => arbitrary(),
        }
    }

    open spec fn planned_state(self) -> Seq<char> {
        match self.doc_path.path_spec() {
            Ok(segments) => segments[0],
            Err(_) => arbitrary(),
        }
    }

    open spec fn transport_ok(self) -> bool {
        self.transport.request_succeeds(
            Method::Get,
            self.planned_request().path,
            self.options_spec(),
        )
    }

    open spec fn response_outcome(
        status: StatusCode,
        body: Option<JsonValue>,
        state: DatabaseName,
    ) -> Result<DocumentModel, Error> {
        read_document_outcome(status, body, state@)
    }

    fn make_request(self) -> (res: Result<(T::Request, DatabaseName), Error>) {
        let options = RequestOptions::new().with_accept_json();
        let options = match self.attachment_content {
            None => options,
            Some(AttachmentContent::Stubs) => options.with_attachments_query(false),
            Some(AttachmentContent::All) => options.with_attachments_query(true),
        };
        let options = match self.revision {
            None => options,
            Some(revision) => options.with_revision_query(revision),
        };
        let doc_path = match self.doc_path.into_document_path() {
            Ok(p) => p,
            Err(e) => {
                return Err(e);
            },
        };
        let request = match self.transport.get(doc_path.segments(), options) {
            Ok(r) => r,
            Err(e) => {
                return Err(e);
            },
        };
        let (db_name, _doc_id) = doc_path.into_parts();
        Ok((request, db_name))
    }

    fn take_response<R: Response>(response: R, state: DatabaseName) -> (res: Result<
        Document,
        Error,
    >) {
        let status = response.status_code();
        match status {
            StatusCode::Success => {
                let body = match response.decode_json_body() {
                    Ok(v) => v,
                    Err(e) => {
                        return Err(e);
                    },
                };
                match decode_document(body) {
                    Ok(decoded) => Ok(Document::new_from_decoded(state, decoded)),
                    Err(e) => Err(e),
                }
            },
            StatusCode::NotFound => {
                let body = match response.decode_json_body() {
                    Ok(v) => Some(v),
                    Err(_) => None,
                };
                Err(Error::not_found(body))
            },
            StatusCode::Unauthorized => {
                let body = match response.decode_json_body() {
                    Ok(v) => Some(v),
                    Err(_) => None,
                };
                Err(Error::unauthorized(body))
            },
            StatusCode::Conflict => {
                let body = match response.decode_json_body() {
                    Ok(v) => Some(v),
                    Err(_) => None,
                };
                Err(Error::conflict(body))
            },
            _ => {
                let body = match response.decode_json_body() {
                    Ok(v) => Some(v),
                    Err(_) => None,
                };
                Err(Error::server_response(status, body))
            },
        }
    }
}

/// Whether a result satisfies [`ReadDocument::make_request`]'s contract
/// for a given action.
pub open spec fn read_request_post<'a, T: Transport + 'a, P: IntoDocumentPath>(
    action: ReadDocument<'a, T, P>,
    res: Result<(T::Request, DatabaseName), Error>,
) -> bool {
    match action.forced_failure() {
        Some(e) => res matches Err(e2) && e2 == e,
        None => {
            &&& res is Ok <==> action.transport_ok()
            &&& (res matches Ok(p) ==> p.0.model() == action.planned_request() && p.1@
                == action.planned_state())
            &&& (res matches Err(e) ==> e is Transport)
        },
    }
}

/// The rendered options of a read carry exactly the modifiers that were
/// set, and nothing else: the JSON accept always; the `rev` query value
/// exactly the given revision's string form, and absent when no revision
/// modifier was given; the `attachments` query value exactly the given
/// flag, and absent when no attachment modifier was given; and never a
/// body.
pub proof fn lemma_read_options_exact(
    revision: Option<Seq<char>>,
    attachment_content: Option<AttachmentContent>,
)
    ensures
        ({
            let o = read_document_options(revision, attachment_content);
            &&& o.accept == Some(Accept::Json)
            &&& o.revision == revision
            &&& o.body is None
            &&& (o.attachments is Some <==> attachment_content is Some)
            &&& (attachment_content == Some(AttachmentContent::All) ==> o.attachments == Some(
                true,
            ))
            &&& (attachment_content == Some(AttachmentContent::Stubs) ==> o.attachments == Some(
                false,
            ))
        }),
{
}

/// A read with no modifiers plans exactly a `GET` on the document's path
/// segments with the JSON accept set and nothing else — no query values
/// and no body.
pub proof fn lemma_default_read_plan<'a, T: Transport + 'a, P: IntoDocumentPath>(
    action: ReadDocument<'a, T, P>,
)
    requires
        action.revision is None,
        action.attachment_content is None,
        action.doc_path.path_spec() is Ok,
    ensures
        action.forced_failure() is None,
        action.planned_request() == (RequestModel {
            method: Method::Get,
            path: action.doc_path.path_spec()->Ok_0,
            options: OptionsModel {
                accept: Some(Accept::Json),
                revision: None,
                attachments: None,
                body: None,
            },
        }),
{
}

/// Building the same read twice is deterministic: any two results the
/// contract allows for equal actions agree — the same error, or requests
/// with the same content and the same carried database name.
pub proof fn lemma_make_request_deterministic<'a, T: Transport + 'a, P: IntoDocumentPath>(
    a: ReadDocument<'a, T, P>,
    b: ReadDocument<'a, T, P>,
    ra: Result<(T::Request, DatabaseName), Error>,
    rb: Result<(T::Request, DatabaseName), Error>,
)
    requires
        a == b,
        read_request_post(a, ra),
        read_request_post(b, rb),
    ensures
        (match (ra, rb) {
            (Ok(x), Ok(y)) => x.0.model() == y.0.model() && x.1@ == y.1@,
            (Err(e1), Err(e2)) => (a.forced_failure() matches Some(e) ==> e1 == e && e2 == e),
            _ => false,
        }),
{
}

/// Round trip: a success body assembled from an identifier, a revision
/// and content fields, interpreted with a carried database name,
/// reproduces exactly those components — the name, the identifier, the
/// revision, and the content fields unchanged and in order.
pub proof fn lemma_read_round_trip(
    db_name: DatabaseName,
    body: JsonValue,
    id_key: String,
    id: String,
    rev_key: String,
    rev: String,
    fields: Seq<(String, JsonValue)>,
)
    requires
        body matches JsonValue::Object(entries) && entries@ == seq![
            (id_key, JsonValue::Str(id)),
            (rev_key, JsonValue::Str(rev)),
        ] + fields,
        id_key@ == "_id"@,
        rev_key@ == "_rev"@,
        is_revision_seq(rev@),
        forall|i: int| 0 <= i < fields.len() ==> !is_meta_key(#[trigger] fields[i].0@),
    ensures
        read_document_outcome(StatusCode::Success, Some(body), db_name@) == Ok::<DocumentModel, Error>(DocumentModel {
            db_name: db_name@,
            id: id@,
            revision: rev@,
            content: fields,
        }),
{
    let entries = body->Object_0;
    let es = entries@;
    let prefix = seq![(id_key, JsonValue::Str(id)), (rev_key, JsonValue::Str(rev))];
    reveal_strlit("_id");
    reveal_strlit("_rev");
    assert("_id"@.len() == 3);
    assert("_rev"@.len() == 4);
    assert(es[0] == (id_key, JsonValue::Str(id)));
    assert(es[1] == (rev_key, JsonValue::Str(rev)));
    lemma_lookup_key_at(es, "_id"@, 0);
    lemma_lookup_key_at(es, "_rev"@, 1);
    assert(es =~= prefix + fields);
    lemma_content_entries_append_clean(prefix, fields);
    let identity_only = prefix.drop_last();
    assert(identity_only =~= seq![(id_key, JsonValue::Str(id))]);
    assert(is_meta_key(prefix.last().0@));
    assert(is_meta_key(identity_only.last().0@));
    assert(identity_only.drop_last() =~= Seq::<(String, JsonValue)>::empty());
    assert(content_entries(Seq::<(String, JsonValue)>::empty()) == Seq::<(
        String,
        JsonValue,
    )>::empty());
    assert(content_entries(identity_only.drop_last()) == Seq::<(String, JsonValue)>::empty());
    assert(content_entries(identity_only) == Seq::<(String, JsonValue)>::empty());
    assert(content_entries(prefix) == Seq::<(String, JsonValue)>::empty());
    assert(content_entries(es) =~= fields);
}

} // verus!
