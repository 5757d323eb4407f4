//! The error surface an action returns to its caller, with the server's own
//! `error`/`reason` text preserved verbatim.

use vstd::prelude::*;
use vstd::pervasive::unreached;

use crate::json::JsonValue;
use crate::json::lookup_key;
use crate::json::find_key;
use crate::transport::StatusCode;

verus! {

/// The `error` and `reason` strings of a server-reported failure, kept
/// exactly as the server sent them.
#[derive(Debug, PartialEq)]
pub struct ErrorResponse {
    pub error: String,
    pub reason: String,
}

impl ErrorResponse {
    /// The server's `error` string.
    pub fn error(&self) -> (r: &str)
        ensures
            r@ == self.error@,
    {
        self.error.as_str()
    }

    /// The server's `reason` string.
    pub fn reason(&self) -> (r: &str)
        ensures
            r@ == self.reason@,
    {
        self.reason.as_str()
    }
}

/// Why a JSON body could not be decoded into the shape an action expected.
#[derive(Debug, PartialEq, Eq, Structural, Clone, Copy)]
pub enum JsonDecodeCause {
    /// The body is not a JSON object.
    NotObject,
    /// The body has no `_id` entry.
    MissingId,
    /// The body's `_id` entry is not a string.
    IdNotString,
    /// The body has no `_rev` entry.
    MissingRevision,
    /// The body's `_rev` entry is not a string.
    RevisionNotString,
    /// The body's `_rev` string is not a well-formed revision.
    BadRevision,
}

/// Everything that can go wrong while running an action.
#[derive(Debug, PartialEq)]
#[allow(inconsistent_fields)]
pub enum Error {
    /// The server reported that the database or document does not exist.
    NotFound(ErrorResponse),
    /// The server reported that the client lacks permission.
    Unauthorized(ErrorResponse),
    /// The server reported an update conflict.
    Conflict(ErrorResponse),
    /// A response that should carry a JSON body carried none.
    ResponseNotJson,
    /// A JSON body was present but not of the shape the action expected.
    JsonDecode { cause: JsonDecodeCause },
    /// A status code the action does not recognize; the code and the raw
    /// body are kept for diagnosis.
    ServerResponse { status: StatusCode, body: Option<JsonValue> },
    /// The transport could not construct or execute the request.
    Transport { cause: String },
    /// A document path string could not be parsed.
    PathParse,
    /// A revision string is not a well-formed revision token.
    RevisionParse,
}

/// The `error`/`reason` pair a well-formed failure body decodes to, if the
/// body is a JSON object whose first `error` and `reason` entries are both
/// strings.
pub open spec fn decode_error_response_spec(body: Option<JsonValue>) -> Option<ErrorResponse> {
    match body {
        Some(JsonValue::Object(entries)) => {
            match (lookup_key(entries@, "error"@), lookup_key(entries@, "reason"@)) {
                (Some(JsonValue::Str(e)), Some(JsonValue::Str(r))) => Some(
                    ErrorResponse { error: e, reason: r },
                ),
                _ => None,
            }
        },
        _ => None,
    }
}

/// The error a not-found status decodes to: the named error when the body
/// is a well-formed failure report, else the catch-all that keeps the body.
pub open spec fn not_found_spec(body: Option<JsonValue>) -> Error {
    match decode_error_response_spec(body) {
        Some(er) => Error::NotFound(er),
        None => Error::ServerResponse { status: StatusCode::NotFound, body },
    }
}

/// The error an unauthorized status decodes to, like [`not_found_spec`].
pub open spec fn unauthorized_spec(body: Option<JsonValue>) -> Error {
    match decode_error_response_spec(body) {
        Some(er) => Error::Unauthorized(er),
        None => Error::ServerResponse { status: StatusCode::Unauthorized, body },
    }
}

/// The error a conflict status decodes to, like [`not_found_spec`].
pub open spec fn conflict_spec(body: Option<JsonValue>) -> Error {
    match decode_error_response_spec(body) {
        Some(er) => Error::Conflict(er),
        None => Error::ServerResponse { status: StatusCode::Conflict, body },
    }
}

/// Moves the first `error` and first `reason` string out of a failure body,
/// or hands the body back untouched when it is not a well-formed report.
fn take_error_response(body: Option<JsonValue>) -> (res: Result<ErrorResponse, Option<JsonValue>>)
    ensures
        (match decode_error_response_spec(body) {
            Some(er) => res == Result::<ErrorResponse, Option<JsonValue>>::Ok(er),
            None => res == Result::<ErrorResponse, Option<JsonValue>>::Err(body),
        }),
{
    match body {
        Some(JsonValue::Object(mut entries)) => {
            let error_at = find_key(&entries, "error");
            let reason_at = find_key(&entries, "reason");
            match (error_at, reason_at) {
                (Some(ei), Some(ri)) => {
                    proof {
                        reveal_strlit("error");
                        reveal_strlit("reason");
                        assert("error"@.len() == 5);
                        assert("reason"@.len() == 6);
                        assert(entries@[ei as int].0@ != entries@[ri as int].0@);
                        crate::json::lemma_lookup_key_at(entries@, "error"@, ei as int);
                        crate::json::lemma_lookup_key_at(entries@, "reason"@, ri as int);
                    }
                    let error_is_str = matches!(&entries[ei].1, JsonValue::Str(_));
                    let reason_is_str = matches!(&entries[ri].1, JsonValue::Str(_));
                    if error_is_str && reason_is_str {
                        let (first, second) = if ei < ri {
                            (ei, ri)
                        } else {
                            (ri, ei)
                        };
                        let (_, second_value) = entries.remove(second);
                        let (_, first_value) = entries.remove(first);
                        let (error_value, reason_value) = if ei < ri {
                            (first_value, second_value)
                        } else {
                            (second_value, first_value)
                        };
                        match (error_value, reason_value) {
                            (JsonValue::Str(e), JsonValue::Str(r)) => Ok(
                                ErrorResponse { error: e, reason: r },
                            ),
                            _ => unreached(),
                        }
                    } else {
                        Err(Some(JsonValue::Object(entries)))
                    }
                },
                _ => {
                    proof {
                        if error_at is None {
                            crate::json::lemma_lookup_key_none(entries@, "error"@);
                        }
                        if reason_at is None {
                            crate::json::lemma_lookup_key_none(entries@, "reason"@);
                        }
                    }
                    Err(Some(JsonValue::Object(entries)))
                },
            }
        },
        other => Err(other),
    }
}

impl Error {
    /// The error for a not-found status with the given body.
    pub fn not_found(body: Option<JsonValue>) -> (e: Error)
        ensures
            e == not_found_spec(body),
    {
        match take_error_response(body) {
            Ok(er) => Error::NotFound(er),
            Err(raw) => Error::ServerResponse { status: StatusCode::NotFound, body: raw },
        }
    }

    /// The error for an unauthorized status with the given body.
    pub fn unauthorized(body: Option<JsonValue>) -> (e: Error)
        ensures
            e == unauthorized_spec(body),
    {
        match take_error_response(body) {
            Ok(er) => Error::Unauthorized(er),
            Err(raw) => Error::ServerResponse { status: StatusCode::Unauthorized, body: raw },
        }
    }

    /// The error for a conflict status with the given body.
    pub fn conflict(body: Option<JsonValue>) -> (e: Error)
        ensures
            e == conflict_spec(body),
    {
        match take_error_response(body) {
            Ok(er) => Error::Conflict(er),
            Err(raw) => Error::ServerResponse { status: StatusCode::Conflict, body: raw },
        }
    }

    /// The catch-all error for a status the action does not recognize.
    pub fn server_response(status: StatusCode, body: Option<JsonValue>) -> (e: Error)
        ensures
            e == (Error::ServerResponse { status, body }),
    {
        Error::ServerResponse { status, body }
    }
}

} // verus!
