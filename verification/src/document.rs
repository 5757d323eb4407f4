//! Documents: the decodable shape of a success body, and the document a
//! read ultimately yields once the carried database name is joined in.

use vstd::prelude::*;

use crate::error::Error;
use crate::error::JsonDecodeCause;
use crate::json::JsonValue;
use crate::json::content_entries;
use crate::json::key_is;
use crate::json::lemma_lookup_key_push;
use crate::json::lookup_key;
use crate::path::DatabaseName;
use crate::path::DocumentId;
use crate::path::Revision;
use crate::path::is_revision_seq;

verus! {

/// What a success body decodes to: the document's identity entries and
/// every remaining entry as content.
#[derive(Debug, PartialEq)]
pub struct JsonDecodableDocument {
    pub id: DocumentId,
    pub revision: Revision,
    pub content: Vec<(String, JsonValue)>,
}

/// The mathematical content of a decoded body.
pub ghost struct DecodedDocumentModel {
    pub id: Seq<char>,
    pub revision: Seq<char>,
    pub content: Seq<(String, JsonValue)>,
}

impl View for JsonDecodableDocument {
    type V = DecodedDocumentModel;

    open spec fn view(&self) -> DecodedDocumentModel {
        DecodedDocumentModel { id: self.id@, revision: self.revision@, content: self.content@ }
    }
}

/// What decoding a success body's entries yields: the first `_id` and the
/// first `_rev` entry must both be strings and the revision well-formed;
/// the content is every entry under neither key, in order.
pub open spec fn decode_entries_spec(entries: Seq<(String, JsonValue)>) -> Result<
    DecodedDocumentModel,
    Error,
> {
    match lookup_key(entries, "_id"@) {
        None => Err(Error::JsonDecode { cause: JsonDecodeCause::MissingId }),
        Some(JsonValue::Str(id)) => match lookup_key(entries, "_rev"@) {
            None => Err(Error::JsonDecode { cause: JsonDecodeCause::MissingRevision }),
            Some(JsonValue::Str(rev)) => if is_revision_seq(rev@) {
                Ok(
                    DecodedDocumentModel {
                        id: id@,
                        revision: rev@,
                        content: content_entries(entries),
                    },
                )
            } else {
                Err(Error::JsonDecode { cause: JsonDecodeCause::BadRevision })
            },
            Some(_) => Err(Error::JsonDecode { cause: JsonDecodeCause::RevisionNotString }),
        },
        Some(_) => Err(Error::JsonDecode { cause: JsonDecodeCause::IdNotString }),
    }
}

/// What decoding a success body yields; a body that is not an object is
/// rejected outright.
pub open spec fn decode_document_spec(v: JsonValue) -> Result<DecodedDocumentModel, Error> {
    match v {
        JsonValue::Object(entries) => decode_entries_spec(entries@),
        _ => Err(Error::JsonDecode { cause: JsonDecodeCause::NotObject }),
    }
}

/// Decodes a success body, consuming it; every entry is moved, never
/// copied, so the result's strings are the body's own.
pub fn decode_document(v: JsonValue) -> (res: Result<JsonDecodableDocument, Error>)
    ensures
        (match (res, decode_document_spec(v)) {
            (Ok(d), Ok(m)) => d@ == m,
            (Err(e), Err(em)) => e == em,
            _ => false,
        }),
{
    proof {
        reveal_strlit("_id");
        reveal_strlit("_rev");
        assert("_id"@.len() == 3);
        assert("_rev"@.len() == 4);
    }
    let entries = match v {
        JsonValue::Object(entries) => entries,
        _ => {
            return Err(Error::JsonDecode { cause: JsonDecodeCause::NotObject });
        },
    };
    let ghost all = entries@;
    let mut remaining = entries;
    let mut id_slot: Option<JsonValue> = None;
    let mut rev_slot: Option<JsonValue> = None;
    let mut content: Vec<(String, JsonValue)> = Vec::new();
    while remaining.len() > 0
        invariant
            remaining@.len() <= all.len(),
            remaining@ == all.subrange(all.len() - remaining@.len(), all.len() as int),
            id_slot == lookup_key(all.take(all.len() - remaining@.len()), "_id"@),
            rev_slot == lookup_key(all.take(all.len() - remaining@.len()), "_rev"@),
            content@ == content_entries(all.take(all.len() - remaining@.len())),
            "_id"@ != "_rev"@,
        decreases remaining@.len(),
    {
        let ghost done = all.take(all.len() - remaining@.len());
        let (key, value) = remaining.remove(0);
        proof {
            assert((key, value) == all[done.len() as int]);
            assert(all.take(done.len() as int + 1) =~= done.push((key, value)));
            assert(all.take(done.len() as int + 1).drop_last() =~= done);
            lemma_lookup_key_push(done, (key, value), "_id"@);
            lemma_lookup_key_push(done, (key, value), "_rev"@);
        }
        if key_is(&key, "_id") {
            if id_slot.is_none() {
                id_slot = Some(value);
            }
        } else if key_is(&key, "_rev") {
            if rev_slot.is_none() {
                rev_slot = Some(value);
            }
        } else {
            content.push((key, value));
        }
    }
    proof {
        assert(all.take(all.len() - remaining@.len()) =~= all);
    }
    match id_slot {
        None => Err(Error::JsonDecode { cause: JsonDecodeCause::MissingId }),
        Some(JsonValue::Str(id)) => match rev_slot {
            None => Err(Error::JsonDecode { cause: JsonDecodeCause::MissingRevision }),
            Some(JsonValue::Str(rev)) => match Revision::from_string(rev) {
                Ok(revision) => Ok(
                    JsonDecodableDocument { id: DocumentId(id), revision, content },
                ),
                Err(_) => Err(Error::JsonDecode { cause: JsonDecodeCause::BadRevision }),
            },
            Some(_) => Err(Error::JsonDecode { cause: JsonDecodeCause::RevisionNotString }),
        },
        Some(_) => Err(Error::JsonDecode { cause: JsonDecodeCause::IdNotString }),
    }
}

/// A document as an action returns it: where it lives, which version it
/// is, and its content entries.
#[derive(Debug, PartialEq)]
pub struct Document {
    pub db_name: DatabaseName,
    pub id: DocumentId,
    pub revision: Revision,
    pub content: Vec<(String, JsonValue)>,
}

/// The mathematical content of a document.
pub ghost struct DocumentModel {
    pub db_name: Seq<char>,
    pub id: Seq<char>,
    pub revision: Seq<char>,
    pub content: Seq<(String, JsonValue)>,
}

impl View for Document {
    type V = DocumentModel;

    open spec fn view(&self) -> DocumentModel {
        DocumentModel {
            db_name: self.db_name@,
            id: self.id@,
            revision: self.revision@,
            content: self.content@,
        }
    }
}

/// The document a decoded body yields for a given carried database name.
pub open spec fn document_from_decoded_spec(
    db_name: Seq<char>,
    decoded: DecodedDocumentModel,
) -> DocumentModel {
    DocumentModel {
        db_name,
        id: decoded.id,
        revision: decoded.revision,
        content: decoded.content,
    }
}

impl Document {
    /// Joins the carried database name with a decoded body.
    pub fn new_from_decoded(db_name: DatabaseName, decoded: JsonDecodableDocument) -> (doc:
        Document)
        ensures
            doc@ == document_from_decoded_spec(db_name@, decoded@),
    {
        Document { db_name, id: decoded.id, revision: decoded.revision, content: decoded.content }
    }

    /// The database the document lives in.
    pub fn database_name(&self) -> (n: &DatabaseName)
        ensures
            n == self.db_name,
    {
        &self.db_name
    }

    /// The document's identifier.
    pub fn id(&self) -> (i: &DocumentId)
        ensures
            i == self.id,
    {
        &self.id
    }

    /// The document's revision.
    pub fn revision(&self) -> (r: &Revision)
        ensures
            r == self.revision,
    {
        &self.revision
    }

    /// The document's content entries.
    pub fn content(&self) -> (c: &Vec<(String, JsonValue)>)
        ensures
            c == self.content,
    {
        &self.content
    }
}

/// Assembles the document a test expects, from its identity and its
/// content entries in insertion order.
#[derive(Debug)]
pub struct DocumentBuilder {
    db_name: DatabaseName,
    id: DocumentId,
    revision: Revision,
    content: Vec<(String, JsonValue)>,
}

impl View for DocumentBuilder {
    type V = DocumentModel;

    closed spec fn view(&self) -> DocumentModel {
        DocumentModel {
            db_name: self.db_name@,
            id: self.id@,
            revision: self.revision@,
            content: self.content@,
        }
    }
}

impl DocumentBuilder {
    /// Starts a document at the given location and revision, with no
    /// content.
    pub fn new(path: (DatabaseName, DocumentId), revision: Revision) -> (b: DocumentBuilder)
        ensures
            b@.db_name == path.0@,
            b@.id == path.1@,
            b@.revision == revision@,
            b@.content.len() == 0,
    {
        DocumentBuilder { db_name: path.0, id: path.1, revision, content: Vec::new() }
    }

    /// Appends one content entry.
    pub fn insert(self, key: &str, value: JsonValue) -> (b: DocumentBuilder)
        ensures
            b@.db_name == self@.db_name,
            b@.id == self@.id,
            b@.revision == self@.revision,
            b@.content.len() == self@.content.len() + 1,
            b@.content.drop_last() == self@.content,
            b@.content.last().0@ == key@,
            b@.content.last().1 == value,
    {
        let mut content = self.content;
        content.push((key.to_owned(), value));
        proof {
            assert(content@.drop_last() =~= self.content@);
        }
        DocumentBuilder { content, ..self }
    }

    /// Finishes the document.
    pub fn build(self) -> (doc: Document)
        ensures
            doc@ == self@,
    {
        Document {
            db_name: self.db_name,
            id: self.id,
            revision: self.revision,
            content: self.content,
        }
    }
}

} // verus!
