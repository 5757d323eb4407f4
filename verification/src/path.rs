//! Names, identifiers and revision tokens, and the parsing of document
//! path strings into ordered path segments.

use vstd::prelude::*;

use crate::error::Error;

verus! {

/// The name of a database: an opaque path segment.
#[derive(Debug, PartialEq)]
pub struct DatabaseName(pub String);

impl View for DatabaseName {
    type V = Seq<char>;

    open spec fn view(&self) -> Seq<char> {
        self.0@
    }
}

impl Clone for DatabaseName {
    fn clone(&self) -> (r: Self)
        ensures
            r == *self,
    {
        DatabaseName(self.0.clone())
    }
}

impl From<&str> for DatabaseName {
    fn from(s: &str) -> (r: Self)
        ensures
            r@ == s@,
    {
        DatabaseName(s.to_owned())
    }
}

impl vstd::std_specs::convert::FromSpecImpl<&str> for DatabaseName {
    open spec fn obeys_from_spec() -> bool {
        false
    }

    open spec fn from_spec(s: &str) -> DatabaseName {
        vstd::pervasive::arbitrary()
    }
}

impl DatabaseName {
    /// The name as a string slice.
    pub fn as_str(&self) -> (s: &str)
        ensures
            s@ == self@,
    {
        self.0.as_str()
    }

    /// The name as an owned string.
    pub fn to_string(&self) -> (s: String)
        ensures
            s@ == self@,
    {
        self.0.clone()
    }
}

/// The identifier of a document within a database: an opaque path segment.
#[derive(Debug, PartialEq)]
pub struct DocumentId(pub String);

impl View for DocumentId {
    type V = Seq<char>;

    open spec fn view(&self) -> Seq<char> {
        self.0@
    }
}

impl Clone for DocumentId {
    fn clone(&self) -> (r: Self)
        ensures
            r == *self,
    {
        DocumentId(self.0.clone())
    }
}

impl From<&str> for DocumentId {
    fn from(s: &str) -> (r: Self)
        ensures
            r@ == s@,
    {
        DocumentId(s.to_owned())
    }
}

impl vstd::std_specs::convert::FromSpecImpl<&str> for DocumentId {
    open spec fn obeys_from_spec() -> bool {
        false
    }

    open spec fn from_spec(s: &str) -> DocumentId {
        vstd::pervasive::arbitrary()
    }
}

impl DocumentId {
    /// The identifier as a string slice.
    pub fn as_str(&self) -> (s: &str)
        ensures
            s@ == self@,
    {
        self.0.as_str()
    }

    /// The identifier as an owned string.
    pub fn to_string(&self) -> (s: String)
        ensures
            s@ == self@,
    {
        self.0.clone()
    }
}

/// Whether `c` is a decimal digit.
pub open spec fn is_digit_char(c: char) -> bool {
    '0' as u32 <= c as u32 && c as u32 <= '9' as u32
}

/// Whether `c` is a hexadecimal digit.
pub open spec fn is_hex_char(c: char) -> bool {
    ||| is_digit_char(c)
    ||| 'a' as u32 <= c as u32 && c as u32 <= 'f' as u32
    ||| 'A' as u32 <= c as u32 && c as u32 <= 'F' as u32
}

/// The canonical form of a revision token: one or more decimal digits (the
/// sequence number), a dash, and exactly 32 hexadecimal digits (the digest).
pub open spec fn is_revision_seq(s: Seq<char>) -> bool {
    &&& s.len() >= 34
    &&& s[s.len() - 33] == '-'
    &&& forall|i: int| 0 <= i < s.len() - 33 ==> is_digit_char(#[trigger] s[i])
    &&& forall|i: int| s.len() - 32 <= i < s.len() ==> is_hex_char(#[trigger] s[i])
}

/// Whether `s` is a well-formed revision token.
pub fn is_revision_str(s: &str) -> (r: bool)
    ensures
        r == is_revision_seq(s@),
{
    let n = s.unicode_len();
    if n < 34 {
        return false;
    }
    if s.get_char(n - 33) != '-' {
        return false;
    }
    let mut i: usize = 0;
    while i < n - 33
        invariant
            n == s@.len(),
            34 <= n,
            i <= n - 33,
            forall|k: int| 0 <= k < i ==> is_digit_char(#[trigger] s@[k]),
        decreases n - 33 - i,
    {
        let c = s.get_char(i);
        if (c as u32) < '0' as u32 || (c as u32) > '9' as u32 {
            return false;
        }
        i = i + 1;
    }
    let mut i: usize = n - 32;
    while i < n
        invariant
            n == s@.len(),
            34 <= n,
            n - 32 <= i <= n,
            forall|k: int| n - 32 <= k < i ==> is_hex_char(#[trigger] s@[k]),
        decreases n - i,
    {
        let c = s.get_char(i);
        let u = c as u32;
        let digit = '0' as u32 <= u && u <= '9' as u32;
        let lower = 'a' as u32 <= u && u <= 'f' as u32;
        let upper = 'A' as u32 <= u && u <= 'F' as u32;
        if !(digit || lower || upper) {
            return false;
        }
        i = i + 1;
    }
    true
}

/// An opaque token identifying one version of a stored document, kept in
/// the canonical string form described by [`is_revision_seq`].
#[derive(Debug, PartialEq)]
pub struct Revision(pub String);

impl View for Revision {
    type V = Seq<char>;

    open spec fn view(&self) -> Seq<char> {
        self.0@
    }
}

impl Clone for Revision {
    fn clone(&self) -> (r: Self)
        ensures
            r == *self,
    {
        Revision(self.0.clone())
    }
}

impl Revision {
    /// Takes ownership of a well-formed revision string; rejects any other.
    pub fn from_string(s: String) -> (res: Result<Revision, Error>)
        ensures
            res is Ok <==> is_revision_seq(s@),
            (res matches Ok(r) ==> r == Revision(s)),
            (res matches Err(e) ==> e == Error::RevisionParse),
    {
        if is_revision_str(s.as_str()) {
            Ok(Revision(s))
        } else {
            Err(Error::RevisionParse)
        }
    }

    /// Parses a revision token from its string form.
    pub fn parse(s: &str) -> (res: Result<Revision, Error>)
        ensures
            res is Ok <==> is_revision_seq(s@),
            (res matches Ok(r) ==> r@ == s@),
            (res matches Err(e) ==> e == Error::RevisionParse),
    {
        Revision::from_string(s.to_owned())
    }

    /// The token's string form.
    pub fn to_string(&self) -> (s: String)
        ensures
            s@ == self@,
    {
        self.0.clone()
    }

    /// The token's string form, borrowed.
    pub fn as_str(&self) -> (s: &str)
        ensures
            s@ == self@,
    {
        self.0.as_str()
    }
}

/// Whether `j` is the unique segment separator of a document path string:
/// the one slash besides the leading one, with a nonempty segment on each
/// side.
pub open spec fn is_path_split(s: Seq<char>, j: int) -> bool {
    &&& 2 <= j <= s.len() - 2
    &&& s[j] == '/'
    &&& forall|i: int| 1 <= i < s.len() && i != j ==> s[i] != '/'
}

/// A well-formed document path string: a leading slash, a nonempty
/// database name, a slash, and a nonempty document identifier, with no
/// further slashes.
pub open spec fn is_document_path_seq(s: Seq<char>) -> bool {
    &&& s.len() >= 4
    &&& s[0] == '/'
    &&& exists|j: int| is_path_split(s, j)
}

/// The separator position of a well-formed document path string.
pub open spec fn path_split_at(s: Seq<char>) -> int {
    choose|j: int| is_path_split(s, j)
}

/// The two path segments of a well-formed document path string.
pub open spec fn path_segments(s: Seq<char>) -> Seq<Seq<char>> {
    let j = path_split_at(s);
    seq![s.subrange(1, j), s.subrange(j + 1, s.len() as int)]
}

/// An ordered pair of path segments naming one document.
#[derive(Debug, PartialEq)]
pub struct DocumentPath {
    pub db_name: DatabaseName,
    pub doc_id: DocumentId,
}

impl View for DocumentPath {
    type V = Seq<Seq<char>>;

    open spec fn view(&self) -> Seq<Seq<char>> {
        seq![self.db_name@, self.doc_id@]
    }
}

impl DocumentPath {
    /// Assembles a path from its two segments.
    pub fn new(db_name: DatabaseName, doc_id: DocumentId) -> (p: DocumentPath)
        ensures
            p == (DocumentPath { db_name, doc_id }),
    {
        DocumentPath { db_name, doc_id }
    }

    /// The database segment.
    pub fn database_name(&self) -> (n: &DatabaseName)
        ensures
            n == self.db_name,
    {
        &self.db_name
    }

    /// The document segment.
    pub fn document_id(&self) -> (i: &DocumentId)
        ensures
            i == self.doc_id,
    {
        &self.doc_id
    }

    /// Takes the path apart into its two segments.
    pub fn into_parts(self) -> (p: (DatabaseName, DocumentId))
        ensures
            p.0 == self.db_name,
            p.1 == self.doc_id,
    {
        (self.db_name, self.doc_id)
    }

    /// The ordered segments, borrowed, ready to hand to a transport.
    pub fn segments(&self) -> (v: Vec<&str>)
        ensures
            v.deep_view() == self@,
    {
        let v: Vec<&str> = vec![self.db_name.as_str(), self.doc_id.as_str()];
        proof {
            assert(v.deep_view() =~= self@);
        }
        v
    }
}

/// Parses a document path string of the form `/database/document`.
pub fn parse_document_path(s: &str) -> (res: Result<DocumentPath, Error>)
    ensures
        res is Ok <==> is_document_path_seq(s@),
        (res matches Ok(p) ==> p@ == path_segments(s@)),
        (res matches Err(e) ==> e == Error::PathParse),
{
    let n = s.unicode_len();
    if n < 4 {
        return Err(Error::PathParse);
    }
    if s.get_char(0) != '/' {
        return Err(Error::PathParse);
    }
    // Find the first slash after the leading one.
    let mut i: usize = 1;
    while i < n && s.get_char(i) != '/'
        invariant
            n == s@.len(),
            1 <= i <= n,
            forall|k: int| 1 <= k < i ==> s@[k] != '/',
        decreases n - i,
    {
        i = i + 1;
    }
    if i == n {
        // No separator at all.
        proof {
            assert forall|j: int| !is_path_split(s@, j) by {
                if 2 <= j <= s@.len() - 2 {
                    assert(s@[j] != '/');
                }
            }
        }
        return Err(Error::PathParse);
    }
    let j = i;
    // Check that no further slash follows.
    let mut i: usize = j + 1;
    while i < n
        invariant
            n == s@.len(),
            1 <= j < n,
            s@[j as int] == '/',
            forall|k: int| 1 <= k < j ==> s@[k] != '/',
            j + 1 <= i <= n,
            forall|k: int| j < k < i ==> s@[k] != '/',
        decreases n - i,
    {
        if s.get_char(i) == '/' {
            proof {
                lemma_two_slashes_no_split(s@, j as int, i as int);
            }
            return Err(Error::PathParse);
        }
        i = i + 1;
    }
    if j < 2 || j > n - 2 {
        // One of the two segments is empty.
        proof {
            assert forall|j2: int| !is_path_split(s@, j2) by {
                if is_path_split(s@, j2) {
                    if j2 != j {
                        assert(s@[j as int] != '/');
                    }
                }
            }
        }
        return Err(Error::PathParse);
    }
    proof {
        assert(is_path_split(s@, j as int));
        assert(is_document_path_seq(s@));
        lemma_path_split_unique(s@, j as int);
    }
    let db = s.substring_char(1, j).to_owned();
    let doc = s.substring_char(j + 1, n).to_owned();
    let p = DocumentPath { db_name: DatabaseName(db), doc_id: DocumentId(doc) };
    proof {
        assert(p@ =~~= path_segments(s@));
    }
    Ok(p)
}

/// Two distinct slashes after the leading one rule out any split.
proof fn lemma_two_slashes_no_split(s: Seq<char>, a: int, b: int)
    requires
        1 <= a < s.len(),
        1 <= b < s.len(),
        a != b,
        s[a] == '/',
        s[b] == '/',
    ensures
        forall|j: int| !is_path_split(s, j),
{
    assert forall|j: int| !is_path_split(s, j) by {
        if is_path_split(s, j) {
            if j != a {
                assert(s[a] != '/');
            } else {
                assert(s[b] != '/');
            }
        }
    }
}

/// A document path string has exactly one split position.
proof fn lemma_path_split_unique(s: Seq<char>, j: int)
    requires
        is_path_split(s, j),
    ensures
        path_split_at(s) == j,
{
    let j2 = path_split_at(s);
    assert(is_path_split(s, j2));
    if j2 != j {
        assert(s[j2] != '/');
    }
}

/// Anything that can stand for a document's path in an action: either an
/// already assembled [`DocumentPath`] or a string to be parsed.
pub trait IntoDocumentPath: Sized {
    /// The segments this value stands for, or the error its conversion
    /// reports.
    spec fn path_spec(self) -> Result<Seq<Seq<char>>, Error>;

    /// Converts this value into a document path.
    fn into_document_path(self) -> (res: Result<DocumentPath, Error>)
        ensures
            (match (res, self.path_spec()) {
                (Ok(p), Ok(m)) => p@ == m,
                (Err(e), Err(me)) => e == me,
                _ => false,
            }),
    ;
}

impl IntoDocumentPath for DocumentPath {
    open spec fn path_spec(self) -> Result<Seq<Seq<char>>, Error> {
        Ok(self@)
    }

    fn into_document_path(self) -> (res: Result<DocumentPath, Error>) {
        Ok(self)
    }
}

impl<'a> IntoDocumentPath for &'a str {
    open spec fn path_spec(self) -> Result<Seq<Seq<char>>, Error> {
        if is_document_path_seq(self@) {
            Ok(path_segments(self@))
        } else {
            Err(Error::PathParse)
        }
    }

    fn into_document_path(self) -> (res: Result<DocumentPath, Error>) {
        parse_document_path(self)
    }
}

} // verus!
