//! JSON documents, read and written through `serde_json`.
//!
//! A parsed document stays a `serde_json::Value`. The library models what
//! such a value holds as a [`JsonTree`] and looks into it only through the
//! accessors below. Those accessors, the parser and the string serialiser
//! are thin calls into `serde_json`; their contracts are taken from its
//! documentation and are not proved. Everything else in this file is.

use vstd::prelude::*;
use vstd::string::StringExecFns;

verus! {

/* The model */

/// What a JSON value holds. Of a number the model keeps what the library
/// reads of one: the number itself where it is an integer from 0 to
/// `u64::MAX`, nothing otherwise.
pub enum JsonTree {
    Null,
    Bool(bool),
    Number(Option<u64>),
    Text(Seq<char>),
    Array(Seq<JsonTree>),
    Object(Map<Seq<char>, JsonTree>),
}

/// The member of an object under a key: none where the value is no object
/// or has no such member.
pub open spec fn member_of(tree: JsonTree, key: Seq<char>) -> Option<JsonTree> {
    match tree {
        JsonTree::Object(members) => if members.contains_key(key) {
            Some(members[key])
        } else {
            None
        },
        _ => None,
    }
}

/* The calls into serde_json */

/// Declares `serde_json::Value` as a type whose inside the verifier does
/// not see.
#[verifier::external_type_specification]
#[verifier::external_body]
pub struct ExJsonValue(serde_json::Value);

/// Declares `serde_json::Error` as a type whose inside the verifier does
/// not see.
#[verifier::external_type_specification]
#[verifier::external_body]
pub struct ExJsonError(serde_json::Error);

/// What a `serde_json::Value` holds.
pub uninterp spec fn json_tree(value: serde_json::Value) -> JsonTree;

/// What `Display` prints for a `serde_json::Error`.
pub uninterp spec fn json_error_text(error: serde_json::Error) -> Seq<char>;

/// What `serde_json::from_slice::<Value>` makes of `bytes`: the document, or
/// the text of the parser's error.
pub uninterp spec fn json_document(bytes: Seq<u8>) -> Result<JsonTree, Seq<char>>;

/// What `serde_json::to_string` returns for a `str`: the quoted and escaped
/// JSON string token.
pub uninterp spec fn json_string_token(text: Seq<char>) -> Seq<char>;

/// Calls `serde_json::from_slice` for a `Value`. Parsing is a function of
/// the bytes alone; the contract names its outcome and says no more.
#[verifier::external_body]
pub(crate) fn parse_document(bytes: &[u8]) -> (r: Result<serde_json::Value, serde_json::Error>)
    ensures
        match r {
            Ok(value) => json_document(bytes@) == Ok::<JsonTree, Seq<char>>(json_tree(value)),
            Err(error) => json_document(bytes@) == Err::<JsonTree, Seq<char>>(
                json_error_text(error),
            ),
        },
{
    serde_json::from_slice(bytes)
}

/// Calls `Value::get` with a string key, which gives the member of an
/// object under that key and `None` for a value that is no object or has no
/// such member.
#[verifier::external_body]
pub(crate) fn member<'a>(value: &'a serde_json::Value, key: &str) -> (r: Option<
    &'a serde_json::Value,
>)
    ensures
        match r {
            Some(m) => member_of(json_tree(*value), key@) == Some(json_tree(*m)),
            None => member_of(json_tree(*value), key@) is None,
        },
{
    value.get(key)
}

/// Calls `Value::as_str`, which gives the text of a JSON string and `None`
/// for any other value.
#[verifier::external_body]
pub(crate) fn text_of<'a>(value: &'a serde_json::Value) -> (r: Option<&'a str>)
    ensures
        match r {
            Some(text) => json_tree(*value) == JsonTree::Text(text@),
            None => !(json_tree(*value) is Text),
        },
{
    value.as_str()
}

/// Calls `Value::as_u64`, which gives the number where the value is an
/// integer from 0 to `u64::MAX` and `None` for any other value.
#[verifier::external_body]
pub(crate) fn count_of(value: &serde_json::Value) -> (r: Option<u64>)
    ensures
        r == match json_tree(*value) {
            JsonTree::Number(n) => n,
            _ => None,
        },
{
    value.as_u64()
}

/// Calls `Value::is_null`.
#[verifier::external_body]
pub(crate) fn is_null(value: &serde_json::Value) -> (r: bool)
    ensures
        r == (json_tree(*value) is Null),
{
    value.is_null()
}

/// Calls `Value::is_object`.
#[verifier::external_body]
pub(crate) fn is_object(value: &serde_json::Value) -> (r: bool)
    ensures
        r == (json_tree(*value) is Object),
{
    value.is_object()
}

/// Prints a `serde_json::Error` through its `Display` impl.
#[verifier::external_body]
pub(crate) fn error_text(error: &serde_json::Error) -> (r: String)
    ensures
        r@ == json_error_text(*error),
{
    error.to_string()
}

/// Calls `serde_json::to_string` on a `str`. The contract names the token
/// and claims success: a `str` serialises through `serialize_str`, which
/// only writes into a `Vec<u8>` and has no failing path.
#[verifier::external_body]
pub(crate) fn string_token(text: &str) -> (r: Result<String, serde_json::Error>)
    ensures
        r is Ok,
        r->Ok_0@ == json_string_token(text@),
{
    serde_json::to_string(text)
}

/* Reading members */

/// How a member that may be left out reads in an object.
pub enum Field<T> {
    /// No member under the key, or the member is `null`.
    Absent,
    /// A member of the expected kind.
    Present(T),
    /// A member of another kind.
    Mismatch,
}

/// What a member that may be left out holds, where it is not of another
/// kind.
pub open spec fn optional<T>(field: Field<T>) -> Option<T> {
    match field {
        Field::Present(t) => Some(t),
        _ => None,
    }
}

/// The member under `key` read as text.
pub open spec fn text_field(object: JsonTree, key: Seq<char>) -> Field<Seq<char>> {
    match member_of(object, key) {
        None => Field::Absent,
        Some(JsonTree::Null) => Field::Absent,
        Some(JsonTree::Text(text)) => Field::Present(text),
        Some(_) => Field::Mismatch,
    }
}

/// The member under `key` read as a count that fits 32 bits.
pub open spec fn count_field(object: JsonTree, key: Seq<char>) -> Field<u32> {
    match member_of(object, key) {
        None => Field::Absent,
        Some(JsonTree::Null) => Field::Absent,
        Some(JsonTree::Number(Some(n))) => if n <= u32::MAX {
            Field::Present(n as u32)
        } else {
            Field::Mismatch
        },
        Some(_) => Field::Mismatch,
    }
}

/// The member under `key` read as a nested object.
pub open spec fn object_field(object: JsonTree, key: Seq<char>) -> Field<JsonTree> {
    match member_of(object, key) {
        None => Field::Absent,
        Some(JsonTree::Null) => Field::Absent,
        Some(JsonTree::Object(members)) => Field::Present(JsonTree::Object(members)),
        Some(_) => Field::Mismatch,
    }
}

/// What a member that may be left out holds, where it is not of another
/// kind.
pub fn settled<T>(field: Field<T>) -> (r: Option<T>)
    ensures
        r == optional(field),
{
    match field {
        Field::Present(t) => Some(t),
        _ => None,
    }
}

/// Reads the member under `key` as text.
pub fn read_text(object: &serde_json::Value, key: &str) -> (r: Field<String>)
    ensures
        match r {
            Field::Absent => text_field(json_tree(*object), key@) is Absent,
            Field::Present(text) => text_field(json_tree(*object), key@) == Field::Present(text@),
            Field::Mismatch => text_field(json_tree(*object), key@) is Mismatch,
        },
{
    match member(object, key) {
        None => Field::Absent,
        Some(m) => {
            if is_null(m) {
                Field::Absent
            } else {
                match text_of(m) {
                    Some(text) => Field::Present(text.to_owned()),
                    None => Field::Mismatch,
                }
            }
        },
    }
}

/// Reads the member under `key` as a count that fits 32 bits.
pub fn read_count(object: &serde_json::Value, key: &str) -> (r: Field<u32>)
    ensures
        r == count_field(json_tree(*object), key@),
{
    match member(object, key) {
        None => Field::Absent,
        Some(m) => {
            if is_null(m) {
                Field::Absent
            } else {
                match count_of(m) {
                    Some(n) => {
                        if n <= 0xFFFF_FFFF {
                            Field::Present(n as u32)
                        } else {
                            Field::Mismatch
                        }
                    },
                    None => Field::Mismatch,
                }
            }
        },
    }
}

/// Reads the member under `key` as a nested object.
pub fn read_object<'a>(object: &'a serde_json::Value, key: &str) -> (r: Field<
    &'a serde_json::Value,
>)
    ensures
        match r {
            Field::Absent => object_field(json_tree(*object), key@) is Absent,
            Field::Present(m) => object_field(json_tree(*object), key@) == Field::Present(
                json_tree(*m),
            ),
            Field::Mismatch => object_field(json_tree(*object), key@) is Mismatch,
        },
{
    match member(object, key) {
        None => Field::Absent,
        Some(m) => {
            if is_null(m) {
                Field::Absent
            } else if is_object(m) {
                Field::Present(m)
            } else {
                Field::Mismatch
            }
        },
    }
}

/* Writing objects */

/// One member of an object on the wire: its key, and the JSON token of its
/// value.
pub struct Member {
    pub key: Seq<char>,
    pub token: Seq<char>,
}

/// A member as it is written: the key in double quotes, a colon, the token.
/// Keys are written as they stand, so they must hold nothing that JSON
/// escapes.
pub open spec fn member_text(member: Member) -> Seq<char> {
    seq!['"'] + member.key + seq!['"', ':'] + member.token
}

/// Members as they are written: one after the other, with commas between.
pub open spec fn members_text(members: Seq<Member>) -> Seq<char>
    decreases members.len(),
{
    if members.len() == 0 {
        Seq::empty()
    } else if members.len() == 1 {
        member_text(members[0])
    } else {
        members_text(members.drop_last()) + seq![','] + member_text(members.last())
    }
}

/// An object as it is written: its members in braces, without white space.
pub open spec fn object_text(members: Seq<Member>) -> Seq<char> {
    seq!['{'] + members_text(members) + seq!['}']
}

/// Whether some member has the key `key`.
pub open spec fn has_key(members: Seq<Member>, key: Seq<char>) -> bool {
    exists|i: int| 0 <= i < members.len() && (#[trigger] members[i]).key == key
}

/// An object that is being written, member by member.
pub(crate) struct ObjectWriter {
    text: String,
    empty: bool,
    members: Ghost<Seq<Member>>,
}

impl ObjectWriter {
    /// The members written so far.
    pub closed spec fn members(&self) -> Seq<Member> {
        self.members@
    }

    /// Whether the text written so far is the opening brace and the
    /// members.
    pub closed spec fn well_formed(&self) -> bool {
        &&& self.text@ == seq!['{'] + members_text(self.members@)
        &&& self.empty == (self.members@.len() == 0)
    }

    /// A writer that has written the opening brace.
    pub(crate) fn new() -> (r: Self)
        ensures
            r.well_formed(),
            r.members() == Seq::<Member>::empty(),
    {
        let mut text = String::new();
        text.push('{');
        let writer = ObjectWriter { text, empty: true, members: Ghost(Seq::empty()) };
        assert(writer.text@ =~= seq!['{'] + members_text(writer.members@));
        writer
    }

    /// Writes one more member.
    pub(crate) fn member(&mut self, key: &str, token: &str)
        requires
            old(self).well_formed(),
        ensures
            final(self).well_formed(),
            final(self).members() == old(self).members().push(Member { key: key@, token: token@ }),
    {
        let ghost before = self.members@;
        let ghost added = Member { key: key@, token: token@ };
        if !self.empty {
            self.text.push(',');
        }
        self.text.push('"');
        self.text.append(key);
        self.text.push('"');
        self.text.push(':');
        self.text.append(token);
        self.empty = false;
        self.members = Ghost(before.push(added));
        proof {
            let after = before.push(added);
            assert(after.drop_last() =~= before);
            assert(after.last() == added);
            if before.len() == 0 {
                assert(self.text@ =~= seq!['{'] + member_text(added));
            } else {
                assert(self.text@ =~= seq!['{'] + (members_text(before) + seq![','] + member_text(
                    added,
                )));
            }
        }
    }

    /// Writes the closing brace and hands out the text.
    pub(crate) fn finish(self) -> (r: String)
        requires
            self.well_formed(),
        ensures
            r@ == object_text(self.members()),
    {
        let mut text = self.text;
        text.push('}');
        text
    }
}

} // verus!
