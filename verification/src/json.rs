//! A structured JSON value and the spec-level operations on JSON objects that
//! response decoding is stated with.

use vstd::prelude::*;

verus! {

/// A JSON value. Numbers are restricted to integers, which is all the
/// protocol's well-known fields use. An object is an ordered list of
/// key/value entries; callers that need "last key wins" or key uniqueness
/// enforce it themselves.
#[derive(Debug, PartialEq)]
pub enum JsonValue {
    Null,
    Bool(bool),
    Int(i64),
    Str(String),
    Array(Vec<JsonValue>),
    Object(Vec<(String, JsonValue)>),
}

/// The value of the first entry with the given key, if any.
pub open spec fn lookup_key(entries: Seq<(String, JsonValue)>, key: Seq<char>) -> Option<
    JsonValue,
>
    decreases entries.len(),
{
    if entries.len() == 0 {
        None
    } else if entries[0].0@ == key {
        Some(entries[0].1)
    } else {
        lookup_key(entries.drop_first(), key)
    }
}

/// Keys that carry a document's identity rather than its content.
pub open spec fn is_meta_key(key: Seq<char>) -> bool {
    key == "_id"@ || key == "_rev"@
}

/// The entries that remain once every identity-carrying entry is removed,
/// in their original order.
pub open spec fn content_entries(entries: Seq<(String, JsonValue)>) -> Seq<(String, JsonValue)>
    decreases entries.len(),
{
    if entries.len() == 0 {
        Seq::empty()
    } else {
        let rest = content_entries(entries.drop_last());
        if is_meta_key(entries.last().0@) {
            rest
        } else {
            rest.push(entries.last())
        }
    }
}

/// Whether the string view of `key` equals the view of the literal `name`.
pub fn key_is(key: &String, name: &str) -> (r: bool)
    ensures
        r == (key@ == name@),
{
    let owned: String = name.to_owned();
    *key == owned
}

/// The index of the first entry with the given key, if any.
pub fn find_key(entries: &Vec<(String, JsonValue)>, name: &str) -> (r: Option<usize>)
    ensures
        (match r {
            Some(i) => {
                &&& i < entries@.len()
                &&& entries@[i as int].0@ == name@
                &&& forall|j: int| 0 <= j < i ==> entries@[j].0@ != name@
            },
            None => forall|j: int| 0 <= j < entries@.len() ==> entries@[j].0@ != name@,
        }),
{
    let mut i: usize = 0;
    while i < entries.len()
        invariant
            i <= entries@.len(),
            forall|j: int| 0 <= j < i ==> entries@[j].0@ != name@,
        decreases entries@.len() - i,
    {
        if key_is(&entries[i].0, name) {
            return Some(i);
        }
        i = i + 1;
    }
    None
}

/// A lookup resolves to the first entry whose key matches.
pub proof fn lemma_lookup_key_at(entries: Seq<(String, JsonValue)>, key: Seq<char>, i: int)
    requires
        0 <= i < entries.len(),
        entries[i].0@ == key,
        forall|j: int| 0 <= j < i ==> entries[j].0@ != key,
    ensures
        lookup_key(entries, key) == Some(entries[i].1),
    decreases i,
{
    if i > 0 {
        lemma_lookup_key_at(entries.drop_first(), key, i - 1);
    }
}

/// A lookup among entries none of whose keys match resolves to nothing.
pub proof fn lemma_lookup_key_none(entries: Seq<(String, JsonValue)>, key: Seq<char>)
    requires
        forall|j: int| 0 <= j < entries.len() ==> entries[j].0@ != key,
    ensures
        lookup_key(entries, key) == None::<JsonValue>,
    decreases entries.len(),
{
    if entries.len() > 0 {
        lemma_lookup_key_none(entries.drop_first(), key);
    }
}

/// Extending a sequence of entries on the right resolves a lookup in the
/// old entries first.
pub proof fn lemma_lookup_key_push(
    entries: Seq<(String, JsonValue)>,
    entry: (String, JsonValue),
    key: Seq<char>,
)
    ensures
        lookup_key(entries.push(entry), key) == (match lookup_key(entries, key) {
            Some(v) => Some(v),
            None => if entry.0@ == key {
                Some(entry.1)
            } else {
                None
            },
        }),
    decreases entries.len(),
{
    let extended = entries.push(entry);
    if entries.len() == 0 {
        assert(extended[0] == entry);
        assert(extended.drop_first() =~= Seq::<(String, JsonValue)>::empty());
        if entry.0@ == key {
            assert(lookup_key(extended, key) == Some(entry.1));
        } else {
            assert(lookup_key(extended, key) == lookup_key(extended.drop_first(), key));
            assert(lookup_key(extended, key) is None);
        }
        assert(lookup_key(entries, key) is None);
    } else {
        assert(extended[0] == entries[0]);
        assert(extended.drop_first() =~= entries.drop_first().push(entry));
        lemma_lookup_key_push(entries.drop_first(), entry, key);
        if entries[0].0@ == key {
            assert(lookup_key(extended, key) == Some(entries[0].1));
            assert(lookup_key(entries, key) == Some(entries[0].1));
        } else {
            assert(lookup_key(extended, key) == lookup_key(extended.drop_first(), key));
            assert(lookup_key(entries, key) == lookup_key(entries.drop_first(), key));
        }
    }
}

/// Appending entries whose keys are all content keys appends them to the
/// content unchanged.
pub proof fn lemma_content_entries_append_clean(
    entries: Seq<(String, JsonValue)>,
    tail: Seq<(String, JsonValue)>,
)
    requires
        forall|i: int| 0 <= i < tail.len() ==> !is_meta_key(#[trigger] tail[i].0@),
    ensures
        content_entries(entries + tail) == content_entries(entries) + tail,
    decreases tail.len(),
{
    if tail.len() == 0 {
        assert(entries + tail =~= entries);
        assert(content_entries(entries) + tail =~= content_entries(entries));
    } else {
        let whole = entries + tail;
        assert(whole.drop_last() =~= entries + tail.drop_last());
        assert(whole.last() == tail.last());
        lemma_content_entries_append_clean(entries, tail.drop_last());
        assert(content_entries(entries) + tail =~= (content_entries(entries) + tail.drop_last()).push(
            tail.last(),
        ));
    }
}

} // verus!
