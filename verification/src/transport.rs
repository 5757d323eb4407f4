//! The seam between actions and request dispatch: HTTP intent values and
//! the `Transport`/`Request`/`Response`/`Action` contracts.

use vstd::prelude::*;

use crate::error::Error;
use crate::json::JsonValue;
use crate::path::Revision;

verus! {

/// An HTTP method.
#[derive(Debug, PartialEq, Eq, Structural, Clone, Copy, Hash)]
pub enum Method {
    Get,
    Put,
    Post,
    Delete,
}

/// An HTTP status code, with the codes the actions branch on named and
/// every other code carried numerically.
#[derive(Debug, PartialEq, Eq, Structural, Clone, Copy, Hash)]
pub enum StatusCode {
    Success,
    Created,
    NotFound,
    Unauthorized,
    Conflict,
    Other(u16),
}

/// A response media type an action can ask for.
#[derive(Debug, PartialEq, Eq, Structural, Clone, Copy, Hash)]
pub enum Accept {
    Json,
}

/// The mathematical content of a [`RequestOptions`] value: exactly the
/// artifacts that were set, and nothing else.
pub ghost struct OptionsModel {
    pub accept: Option<Accept>,
    pub revision: Option<Seq<char>>,
    pub attachments: Option<bool>,
    pub body: Option<JsonValue>,
}

/// The mathematical content of a constructed request: the method, the
/// ordered path segments, and the fully resolved options.
pub ghost struct RequestModel {
    pub method: Method,
    pub path: Seq<Seq<char>>,
    pub options: OptionsModel,
}

/// The HTTP intent of an action besides method and path: an accept
/// header, query parameters and a JSON body, each present exactly when it
/// was set. Built by chained, order-independent setters; a field never set
/// is omitted from the rendered request, never defaulted. Calling the same
/// setter twice replaces the earlier value, exactly as each setter's
/// contract states; no setter checks cross-field consistency — which
/// combination to set is the calling action's decision.
#[derive(Debug)]
pub struct RequestOptions {
    accept: Option<Accept>,
    revision_query: Option<Revision>,
    attachments_query: Option<bool>,
    body: Option<JsonValue>,
}

impl View for RequestOptions {
    type V = OptionsModel;

    closed spec fn view(&self) -> OptionsModel {
        OptionsModel {
            accept: self.accept,
            revision: match self.revision_query {
                Some(r) => Some(r@),
                None => None,
            },
            attachments: self.attachments_query,
            body: self.body,
        }
    }
}

impl RequestOptions {
    /// Options with nothing set.
    pub fn new() -> (r: RequestOptions)
        ensures
            r@ == (OptionsModel {
                accept: None,
                revision: None,
                attachments: None,
                body: None,
            }),
    {
        RequestOptions { accept: None, revision_query: None, attachments_query: None, body: None }
    }

    /// Asks for a JSON response body.
    pub fn with_accept_json(self) -> (r: RequestOptions)
        ensures
            r@ == (OptionsModel { accept: Some(Accept::Json), ..self@ }),
    {
        RequestOptions { accept: Some(Accept::Json), ..self }
    }

    /// Attaches a revision token to be rendered as a `rev` query value.
    pub fn with_revision_query(self, revision: &Revision) -> (r: RequestOptions)
        ensures
            r@ == (OptionsModel { revision: Some(revision@), ..self@ }),
    {
        RequestOptions { revision_query: Some(revision.clone()), ..self }
    }

    /// Attaches the attachment-content flag as an `attachments` query
    /// value.
    pub fn with_attachments_query(self, flag: bool) -> (r: RequestOptions)
        ensures
            r@ == (OptionsModel { attachments: Some(flag), ..self@ }),
    {
        RequestOptions { attachments_query: Some(flag), ..self }
    }

    /// Attaches a JSON request body.
    pub fn with_json_body(self, body: JsonValue) -> (r: RequestOptions)
        ensures
            r@ == (OptionsModel { body: Some(body), ..self@ }),
    {
        RequestOptions { body: Some(body), ..self }
    }

    /// Takes the options apart for rendering: accept, revision, the
    /// attachments flag, and the body, exactly as set.
    pub fn into_parts(self) -> (p: (Option<Accept>, Option<Revision>, Option<bool>, Option<
        JsonValue,
    >))
        ensures
            p.0 == self@.accept,
            (match (p.1, self@.revision) {
                (Some(r), Some(m)) => r@ == m,
                (None, None) => true,
                _ => false,
            }),
            p.2 == self@.attachments,
            p.3 == self@.body,
    {
        (self.accept, self.revision_query, self.attachments_query, self.body)
    }
}

/// A transport-native request handle, known to the pipeline only through
/// its mathematical content.
pub trait Request {
    /// What the constructed request says: method, path and options.
    spec fn model(&self) -> RequestModel;
}

/// A response as the pipeline sees it: a status code, and at most one
/// JSON body.
pub trait Response: Sized {
    /// The status the server reported.
    spec fn status_model(&self) -> StatusCode;

    /// The JSON body the response carries, if any.
    spec fn body_model(&self) -> Option<JsonValue>;

    /// Reads the status code.
    fn status_code(&self) -> (s: StatusCode)
        ensures
            s == self.status_model(),
    ;

    /// Consumes the response and decodes its body as JSON; fails exactly
    /// when no JSON body is present.
    fn decode_json_body(self) -> (res: Result<JsonValue, Error>)
        ensures
            (match self.body_model() {
                Some(v) => res == Result::<JsonValue, Error>::Ok(v),
                None => res == Result::<JsonValue, Error>::Err(Error::ResponseNotJson),
            }),
    ;
}

/// The seam between the pipeline and request dispatch: renders a method,
/// ordered path segments and options into a transport-native request.
/// Construction is deterministic; executing the request is the transport
/// implementation's own affair.
pub trait Transport: Sized {
    type Request: Request;

    /// Whether request construction succeeds for these arguments.
    spec fn request_succeeds(
        &self,
        method: Method,
        path: Seq<Seq<char>>,
        options: OptionsModel,
    ) -> bool;

    /// Renders one request. On success the request's content is exactly
    /// the given method, path and options; on failure the error is a
    /// transport error.
    fn request(&self, method: Method, path: Vec<&str>, options: RequestOptions) -> (res: Result<
        Self::Request,
        Error,
    >)
        ensures
            res is Ok <==> self.request_succeeds(method, path.deep_view(), options@),
            (res matches Ok(req) ==> req.model() == (RequestModel {
                method,
                path: path.deep_view(),
                options: options@,
            })),
            (res matches Err(e) ==> e is Transport),
    ;

    /// Renders a `GET` request, with the same contract as [`Transport::request`].
    fn get(&self, path: Vec<&str>, options: RequestOptions) -> (res: Result<Self::Request, Error>)
        ensures
            res is Ok <==> self.request_succeeds(Method::Get, path.deep_view(), options@),
            (res matches Ok(req) ==> req.model() == (RequestModel {
                method: Method::Get,
                path: path.deep_view(),
                options: options@,
            })),
            (res matches Err(e) ==> e is Transport),
    ;
}

/// The uniform shape of one API operation: build exactly one request
/// against a transport, then interpret the response together with the
/// carried state. An action value is consumed by the first phase and can
/// never run twice.
pub trait Action<T: Transport>: Sized {
    type Output: View;

    type State: View;

    /// The construction error this action reports before touching the
    /// transport, if any.
    spec fn forced_failure(self) -> Option<Error>;

    /// The request this action plans, meaningful when no failure is
    /// forced.
    spec fn planned_request(self) -> RequestModel;

    /// The carried state this action plans, meaningful when no failure is
    /// forced.
    spec fn planned_state(self) -> <Self::State as View>::V;

    /// Whether the transport accepts the planned request.
    spec fn transport_ok(self) -> bool;

    /// The outcome the interpretation phase owes for a given status, body
    /// and carried state.
    spec fn response_outcome(
        status: StatusCode,
        body: Option<JsonValue>,
        state: Self::State,
    ) -> Result<<Self::Output as View>::V, Error>;

    /// Builds the one request this action stands for, consuming the
    /// action. A construction error is reported exactly as planned;
    /// otherwise the result is a request with exactly the planned content
    /// plus the planned carried state, or the transport's own error when
    /// rendering fails.
    fn make_request(self) -> (res: Result<(T::Request, Self::State), Error>)
        ensures
            (match self.forced_failure() {
                Some(e) => res matches Err(e2) && e2 == e,
                None => {
                    &&& res is Ok <==> self.transport_ok()
                    &&& (res matches Ok(p) ==> p.0.model() == self.planned_request() && p.1@
                        == self.planned_state())
                    &&& (res matches Err(e) ==> e is Transport)
                },
            }),
    ;

    /// Interprets a response together with the carried state. The result
    /// is a pure function of the response's status, the response's body
    /// and the carried state.
    fn take_response<R: Response>(response: R, state: Self::State) -> (res: Result<
        Self::Output,
        Error,
    >)
        ensures
            (match (res, Self::response_outcome(
                response.status_model(),
                response.body_model(),
                state,
            )) {
                (Ok(out), Ok(m)) => out@ == m,
                (Err(e), Err(em)) => e == em,
                _ => false,
            }),
    ;
}

} // verus!
