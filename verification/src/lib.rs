//! A typed client binding for a document database's REST API.
//!
//! Every operation against the server is described by an [`transport::Action`]:
//! a value that first builds one HTTP request against a [`transport::Transport`]
//! and later interprets the server's response into a typed result or a typed
//! [`error::Error`]. Request intent (headers, query parameters, body) is
//! carried by [`transport::RequestOptions`], and an in-memory mock transport in
//! [`testing`] lets the whole pipeline run without a server.

pub mod document;
pub mod error;
pub mod json;
pub mod path;
pub mod read_document;
pub mod testing;
pub mod transport;

pub use document::Document;
pub use document::DocumentBuilder;
pub use error::Error;
pub use error::ErrorResponse;
pub use json::JsonValue;
pub use path::DatabaseName;
pub use path::DocumentId;
pub use path::DocumentPath;
pub use path::IntoDocumentPath;
pub use path::Revision;
pub use read_document::AttachmentContent;
pub use read_document::ReadDocument;
