//! An in-memory transport and response, so the whole pipeline can be
//! exercised without a server: the transport records each constructed
//! request as a comparable value, and a response is assembled directly
//! with a chosen status and body.

use vstd::prelude::*;

use crate::error::Error;
use crate::json::JsonValue;
use crate::path::Revision;
use crate::transport::Accept;
use crate::transport::Method;
use crate::transport::OptionsModel;
use crate::transport::Request;
use crate::transport::RequestModel;
use crate::transport::RequestOptions;
use crate::transport::Response;
use crate::transport::StatusCode;
use crate::transport::Transport;

verus! {

/// A transport that performs no I/O: every request it is asked to render
/// is returned as a [`MockRequest`] value.
#[derive(Debug)]
pub struct MockTransport;

impl MockTransport {
    /// A fresh mock transport.
    pub fn new() -> MockTransport {
        MockTransport
    }
}

/// The value a mock transport renders a request into: the method, the
/// owned path segments, and every option exactly as it was set.
#[derive(Debug, PartialEq)]
pub struct MockRequest {
    pub method: Method,
    pub path: Vec<String>,
    pub accept: Option<Accept>,
    pub revision_query: Option<Revision>,
    pub attachments_query: Option<bool>,
    pub body: Option<JsonValue>,
}

impl View for MockRequest {
    type V = RequestModel;

    open spec fn view(&self) -> RequestModel {
        RequestModel {
            method: self.method,
            path: self.path.deep_view(),
            options: OptionsModel {
                accept: self.accept,
                revision: match self.revision_query {
                    Some(r) => Some(r@),
                    None => None,
                },
                attachments: self.attachments_query,
                body: self.body,
            },
        }
    }
}

impl Request for MockRequest {
    open spec fn model(&self) -> RequestModel {
        self@
    }
}

/// Owns the given path segments.
fn to_owned_path(path: Vec<&str>) -> (v: Vec<String>)
    ensures
        v.deep_view() == path.deep_view(),
{
    let mut v: Vec<String> = Vec::new();
    let mut i: usize = 0;
    while i < path.len()
        invariant
            i <= path@.len(),
            v@.len() == i,
            forall|k: int| 0 <= k < i ==> v@[k]@ == #[trigger] path@[k]@,
        decreases path@.len() - i,
    {
        v.push(path[i].to_owned());
        i = i + 1;
    }
    proof {
        assert(v.deep_view() =~~= path.deep_view());
    }
    v
}

impl Transport for MockTransport {
    type Request = MockRequest;

    open spec fn request_succeeds(
        &self,
        method: Method,
        path: Seq<Seq<char>>,
        options: OptionsModel,
    ) -> bool {
        true
    }

    fn request(&self, method: Method, path: Vec<&str>, options: RequestOptions) -> (res: Result<
        MockRequest,
        Error,
    >) {
        let ghost options_model = options@;
        let ghost path_model = path.deep_view();
        let (accept, revision_query, attachments_query, body) = options.into_parts();
        let owned = to_owned_path(path);
        let req = MockRequest { method, path: owned, accept, revision_query, attachments_query, body };
        proof {
            assert(req@ == (RequestModel { method, path: path_model, options: options_model }));
        }
        Ok(req)
    }

    fn get(&self, path: Vec<&str>, options: RequestOptions) -> (res: Result<MockRequest, Error>) {
        self.request(Method::Get, path, options)
    }
}

/// An in-memory response, assembled directly with a chosen status code
/// and at most one JSON body.
#[derive(Debug)]
pub struct MockResponse {
    pub status: StatusCode,
    pub body: Option<JsonValue>,
}

impl MockResponse {
    /// A response with the given status and no body.
    pub fn new(status_code: StatusCode) -> (r: MockResponse)
        ensures
            r.status_model() == status_code,
            r.body_model() is None,
    {
        MockResponse { status: status_code, body: None }
    }

    /// The same response carrying the given JSON body.
    pub fn with_json_body(self, body: JsonValue) -> (r: MockResponse)
        ensures
            r.status_model() == self.status_model(),
            r.body_model() == Some(body),
    {
        MockResponse { body: Some(body), ..self }
    }
}

impl Response for MockResponse {
    open spec fn status_model(&self) -> StatusCode {
        self.status
    }

    open spec fn body_model(&self) -> Option<JsonValue> {
        self.body
    }

    fn status_code(&self) -> (s: StatusCode) {
        self.status
    }

    fn decode_json_body(self) -> (res: Result<JsonValue, Error>) {
        match self.body {
            Some(v) => Ok(v),
            None => Err(Error::ResponseNotJson),
        }
    }
}

} // verus!
