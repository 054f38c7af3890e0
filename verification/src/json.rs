//! JSON documents: what the service sends and what is sent to it.

use vstd::prelude::*;
use vstd::string::StringExecFns;
use crate::text::same_text;

verus! {

/// A JSON document. A number is held as the text that writes it.
#[derive(Debug, PartialEq, Eq)]
pub enum Json {
    Null,
    Bool(bool),
    Number(String),
    Str(String),
    Array(Vec<Json>),
    Object(Vec<Member>),
}

/// A member of an object: its name and its value.
#[derive(Debug, PartialEq, Eq)]
pub struct Member {
    pub name: String,
    pub value: Json,
}

/// The value of a JSON document: what contracts speak of.
pub enum JsonValue {
    Null,
    Bool(bool),
    Number(Seq<char>),
    Str(Seq<char>),
    Array(Seq<JsonValue>),
    Object(Seq<MemberValue>),
}

/// The value of a member of an object.
pub struct MemberValue {
    pub name: Seq<char>,
    pub value: JsonValue,
}

impl View for Json {
    type V = JsonValue;

    open spec fn view(&self) -> JsonValue
        decreases self,
    {
        match self {
            Json::Null => JsonValue::Null,
            Json::Bool(b) => JsonValue::Bool(*b),
            Json::Number(n) => JsonValue::Number(n@),
            Json::Str(s) => JsonValue::Str(s@),
            Json::Array(items) => JsonValue::Array(
                Seq::new(
                    items@.len(),
                    |i: int|
                        if 0 <= i < items@.len() {
                            items@[i]@
                        } else {
                            JsonValue::Null
                        },
                ),
            ),
            Json::Object(members) => JsonValue::Object(
                Seq::new(
                    members@.len(),
                    |i: int|
                        if 0 <= i < members@.len() {
                            members@[i]@
                        } else {
                            MemberValue { name: Seq::empty(), value: JsonValue::Null }
                        },
                ),
            ),
        }
    }
}

impl View for Member {
    type V = MemberValue;

    open spec fn view(&self) -> MemberValue
        decreases self,
    {
        MemberValue { name: self.name@, value: self.value@ }
    }
}

/// The value of the first member called `name`, if there is one.
pub open spec fn member(members: Seq<MemberValue>, name: Seq<char>) -> Option<JsonValue>
    decreases members.len(),
{
    if members.len() == 0 {
        None
    } else if members[0].name == name {
        Some(members[0].value)
    } else {
        member(members.drop_first(), name)
    }
}

/// A member that is found is one of the members.
pub proof fn lemma_member_found(members: Seq<MemberValue>, name: Seq<char>)
    ensures
        member(members, name) matches Some(v) ==> exists|k: int|
            0 <= k < members.len() && (#[trigger] members[k]).value == v,
    decreases members.len(),
{
    if members.len() > 0 && members[0].name != name {
        lemma_member_found(members.drop_first(), name);
        if member(members, name) is Some {
            let rest = members.drop_first();
            let k = choose|k: int|
                0 <= k < rest.len() && (#[trigger] rest[k]).value == member(rest, name)->0;
            assert(members[k + 1] == rest[k]);
        }
    }
}

/// A member of a document is smaller than the document.
pub proof fn lemma_member_smaller(doc: JsonValue, name: Seq<char>)
    ensures
        doc.get(name) matches Some(v) ==> decreases_to!(doc => v),
{
    if let JsonValue::Object(members) = doc {
        lemma_member_found(members, name);
        if member(members, name) is Some {
            let k = choose|k: int|
                0 <= k < members.len() && (#[trigger] members[k]).value == member(
                    members,
                    name,
                )->0;
            assert(decreases_to!(members => members[k]));
        }
    }
}

impl JsonValue {
    /// The member called `name` of an object; nothing for any other document.
    pub open spec fn get(self, name: Seq<char>) -> Option<JsonValue> {
        match self {
            JsonValue::Object(members) => member(members, name),
            _ => None,
        }
    }
}

/// The value of an object, member by member.
pub proof fn lemma_object_view(doc: &Json)
    requires
        doc is Object,
    ensures
        doc@ is Object,
        doc@->Object_0.len() == doc->Object_0@.len(),
        forall|k: int|
            0 <= k < doc->Object_0@.len() ==> #[trigger] doc@->Object_0[k] == doc->Object_0@[k]@,
{
}

/// The value of an array, item by item.
pub proof fn lemma_array_view(doc: &Json)
    requires
        doc is Array,
    ensures
        doc@ is Array,
        doc@->Array_0.len() == doc->Array_0@.len(),
        forall|k: int|
            0 <= k < doc->Array_0@.len() ==> #[trigger] doc@->Array_0[k] == doc->Array_0@[k]@,
{
}

impl Json {
    /// Whether the document is an object.
    pub fn is_object(&self) -> (yes: bool)
        ensures
            yes == (self@ is Object),
    {
        match self {
            Json::Object(_) => true,
            _ => false,
        }
    }

    /// The member called `name` of an object; nothing for any other document.
    pub fn get(&self, name: &str) -> (found: Option<&Json>)
        ensures
            found matches Some(j) ==> self@.get(name@) == Some(j@),
            found is None ==> self@.get(name@) is None,
    {
        match self {
            Json::Object(members) => {
                proof {
                    lemma_object_view(self);
                }
                assert(self@->Object_0.skip(0) =~= self@->Object_0);
                let mut i: usize = 0;
                while i < members.len()
                    invariant
                        i <= members.len(),
                        self@ is Object,
                        self@->Object_0.len() == members@.len(),
                        forall|k: int|
                            0 <= k < members@.len() ==> self@->Object_0[k] == members@[k]@,
                        member(self@->Object_0, name@) == member(
                            self@->Object_0.skip(i as int),
                            name@,
                        ),
                    decreases members.len() - i,
                {
                    let ghost rest = self@->Object_0.skip(i as int);
                    assert(rest.len() > 0);
                    assert(rest[0] == self@->Object_0[i as int]);
                    assert(rest.drop_first() =~= self@->Object_0.skip(i + 1));
                    if same_text(members[i].name.as_str(), name) {
                        return Some(&members[i].value);
                    }
                    i += 1;
                }
                None
            },
            _ => None,
        }
    }
}


/// `serde_json::Value`, the tree that `serde_json` parses a text into. Nothing
/// is said of what is inside one.
#[verifier::external_type_specification]
#[verifier::external_body]
pub struct ExParsedValue(serde_json::Value);

/// The document that a text holds, as `serde_json` reads it; nothing where the
/// text is no JSON.
pub uninterp spec fn json_document(text: Seq<u8>) -> Option<JsonValue>;

/// The digit that writes `d` in hexadecimal, in lower case.
pub open spec fn lower_hex(d: int) -> char {
    "0123456789abcdef"@[d]
}

/// How a character stands inside a JSON string literal. The quotation mark and
/// the backslash get a backslash in front. Of the control characters below the
/// space, backspace, tab, line feed, form feed and carriage return are written
/// `\b`, `\t`, `\n`, `\f` and `\r`, and every other as `\u00` and its two
/// hexadecimal digits. Every other character stands for itself.
pub open spec fn escaped(c: char) -> Seq<char> {
    if c == '"' {
        seq!['\\', '"']
    } else if c == '\\' {
        seq!['\\', '\\']
    } else if c == '\u{8}' {
        seq!['\\', 'b']
    } else if c == '\u{9}' {
        seq!['\\', 't']
    } else if c == '\u{a}' {
        seq!['\\', 'n']
    } else if c == '\u{c}' {
        seq!['\\', 'f']
    } else if c == '\u{d}' {
        seq!['\\', 'r']
    } else if ' ' > c {
        seq!['\\', 'u', '0', '0', lower_hex(c as int / 16), lower_hex(c as int % 16)]
    } else {
        seq![c]
    }
}

/// The characters of a text, each as it stands inside a JSON string literal.
pub open spec fn escaped_text(text: Seq<char>) -> Seq<char>
    decreases text.len(),
{
    if text.len() == 0 {
        Seq::empty()
    } else {
        escaped_text(text.drop_last()) + escaped(text.last())
    }
}

/// A text as a JSON string literal: its characters, escaped, between quotation
/// marks.
pub open spec fn json_string(text: Seq<char>) -> Seq<char> {
    seq!['"'] + escaped_text(text) + seq!['"']
}

/// Turns the tree that `serde_json` parsed into a document, node by node; a
/// number becomes the text that `serde_json::Number` prints.
#[verifier::external_body]
fn document_of(value: serde_json::Value) -> Json {
    match value {
        serde_json::Value::Null => Json::Null,
        serde_json::Value::Bool(b) => Json::Bool(b),
        serde_json::Value::Number(n) => Json::Number(n.to_string()),
        serde_json::Value::String(s) => Json::Str(s),
        serde_json::Value::Array(items) => Json::Array(items.into_iter().map(document_of).collect()),
        serde_json::Value::Object(members) => Json::Object(
            members.into_iter().map(|(name, value)| Member { name, value: document_of(value) }).collect(),
        ),
    }
}

/// Calls `serde_json::from_slice` to read a whole text as one JSON value.
/// Whether it succeeds, and with which document, depends on the text alone.
/// Where the text is no JSON, the result is what `serde_json` says of it, in
/// words.
#[verifier::external_body]
fn read_document(text: &[u8]) -> (read: Result<Json, String>)
    ensures
        read matches Ok(doc) ==> json_document(text@) == Some(doc@),
        read is Err ==> json_document(text@) is None,
{
    serde_json::from_slice::<serde_json::Value>(text).map(document_of).map_err(|e| e.to_string())
}

/// Has `serde_json` print a string as a JSON value, through `Display` for
/// `serde_json::Value`. It writes a quotation mark, the characters of the
/// string, and a quotation mark; of the characters it escapes those that its
/// table of escapes names (the quotation mark, the backslash and the bytes
/// below 32) and no other.
#[verifier::external_body]
fn quote(text: &str) -> (literal: String)
    ensures
        literal@ == json_string(text@),
{
    serde_json::Value::from(text).to_string()
}

/// The text of a document: compact, members and items in their order.
pub open spec fn json_text(doc: JsonValue) -> Seq<char>
    decreases doc,
{
    match doc {
        JsonValue::Null => "null"@,
        JsonValue::Bool(b) => if b { "true"@ } else { "false"@ },
        JsonValue::Number(n) => n,
        JsonValue::Str(s) => json_string(s),
        JsonValue::Array(items) => "["@ + items_text(items) + "]"@,
        JsonValue::Object(members) => "{"@ + members_text(members) + "}"@,
    }
}

/// The texts of the items of an array, with commas between them.
pub open spec fn items_text(items: Seq<JsonValue>) -> Seq<char>
    decreases items,
{
    if items.len() == 0 {
        Seq::empty()
    } else if items.len() == 1 {
        json_text(items[0])
    } else {
        items_text(items.drop_last()) + ","@ + json_text(items.last())
    }
}

/// The text of one member: its name as a string literal, a colon, its value.
pub open spec fn member_text(m: MemberValue) -> Seq<char>
    decreases m,
{
    json_string(m.name) + ":"@ + json_text(m.value)
}

/// The texts of the members of an object, with commas between them.
pub open spec fn members_text(members: Seq<MemberValue>) -> Seq<char>
    decreases members,
{
    if members.len() == 0 {
        Seq::empty()
    } else if members.len() == 1 {
        member_text(members[0])
    } else {
        members_text(members.drop_last()) + ","@ + member_text(members.last())
    }
}

impl Json {
    /// Reads a text as one JSON document; where the text is no JSON, says why.
    pub fn parse(text: &[u8]) -> (read: Result<Json, String>)
        ensures
            read matches Ok(doc) ==> json_document(text@) == Some(doc@),
            read is Err ==> json_document(text@) is None,
    {
        read_document(text)
    }

    /// Writes the document as compact JSON text.
    pub fn to_text(&self) -> (text: String)
        ensures
            text@ == json_text(self@),
        decreases self,
    {
        match self {
            Json::Null => "null".to_owned(),
            Json::Bool(b) => if *b { "true".to_owned() } else { "false".to_owned() },
            Json::Number(n) => n.clone(),
            Json::Str(s) => quote(s.as_str()),
            Json::Array(items) => {
                proof {
                    lemma_array_view(self);
                }
                let mut text = "[".to_owned();
                let mut i: usize = 0;
                while i < items.len()
                    invariant
                        i <= items.len(),
                        *self == Json::Array(*items),
                        self@ is Array,
                        self@->Array_0.len() == items@.len(),
                        forall|k: int| 0 <= k < items@.len() ==> self@->Array_0[k] == items@[k]@,
                        text@ == "["@ + items_text(self@->Array_0.take(i as int)),
                    decreases items.len() - i,
                {
                    if i > 0 {
                        text.append(",");
                    }
                    let item = items[i].to_text();
                    text.append(item.as_str());
                    proof {
                        let all = self@->Array_0;
                        assert(all.take(i + 1).drop_last() =~= all.take(i as int));
                        assert(all.take(i + 1).last() == all[i as int]);
                    }
                    i += 1;
                }
                assert(self@->Array_0.take(i as int) =~= self@->Array_0);
                text.append("]");
                text
            },
            Json::Object(members) => {
                proof {
                    lemma_object_view(self);
                }
                let mut text = "{".to_owned();
                let mut i: usize = 0;
                while i < members.len()
                    invariant
                        i <= members.len(),
                        *self == Json::Object(*members),
                        self@ is Object,
                        self@->Object_0.len() == members@.len(),
                        forall|k: int|
                            0 <= k < members@.len() ==> self@->Object_0[k] == members@[k]@,
                        text@ == "{"@ + members_text(self@->Object_0.take(i as int)),
                    decreases members.len() - i,
                {
                    if i > 0 {
                        text.append(",");
                    }
                    let name = quote(members[i].name.as_str());
                    text.append(name.as_str());
                    text.append(":");
                    let value = members[i].value.to_text();
                    text.append(value.as_str());
                    proof {
                        let all = self@->Object_0;
                        assert(all.take(i + 1).drop_last() =~= all.take(i as int));
                        assert(all.take(i + 1).last() == all[i as int]);
                        assert(member_text(all[i as int]) == name@ + ":"@ + value@);
                        assert(text@ =~= "{"@ + members_text(all.take(i + 1)));
                    }
                    i += 1;
                }
                assert(self@->Object_0.take(i as int) =~= self@->Object_0);
                text.append("}");
                text
            },
        }
    }
}

} // verus!
