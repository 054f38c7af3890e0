//! Reading typed values out of JSON documents.

use vstd::prelude::*;
use crate::json::{Json, JsonValue, MemberValue, lemma_array_view, lemma_object_view};
use crate::text::{decimal, parse_decimal};

verus! {

/// A type that can be read from a JSON document.
pub trait FromJson: DeepView + Sized {
    /// What `doc` says when it is read as this type; nothing where it does not
    /// have the type's shape.
    spec fn of_json(doc: JsonValue) -> Option<Self::V>;

    /// Reads `doc` as this type.
    fn from_json(doc: &Json) -> (read: Option<Self>)
        ensures
            read.deep_view() == Self::of_json(doc@),
    ;
}

/// What a member that must be there says, read as a `T`.
pub open spec fn required<T: FromJson>(found: Option<JsonValue>) -> Option<T::V> {
    match found {
        Some(doc) => T::of_json(doc),
        None => None,
    }
}

/// What a member that may be missing or null says, read as a `T`: `Some(None)`
/// where it is missing or null, nothing where it is there and is no `T`.
pub open spec fn optional<T: FromJson>(found: Option<JsonValue>) -> Option<Option<T::V>> {
    match found {
        None => Some(None),
        Some(JsonValue::Null) => Some(None),
        Some(doc) => match T::of_json(doc) {
            Some(value) => Some(Some(value)),
            None => None,
        },
    }
}

/// What the items of an array say, each read as a `T`; nothing where one of
/// them is no `T`.
pub open spec fn each<T: FromJson>(items: Seq<JsonValue>) -> Option<Seq<T::V>> {
    if forall|i: int| 0 <= i < items.len() ==> (#[trigger] T::of_json(items[i])) is Some {
        Some(Seq::new(items.len(), |i: int| T::of_json(items[i])->0))
    } else {
        None
    }
}

/// Reads the member `name` of `doc`, which must be there, as a `T`.
pub fn field<T: FromJson>(doc: &Json, name: &str) -> (read: Option<T>)
    ensures
        read.deep_view() == required::<T>(doc@.get(name@)),
{
    match doc.get(name) {
        Some(found) => T::from_json(found),
        None => None,
    }
}

/// Reads the member `name` of `doc`, which may be missing or null, as a `T`.
pub fn optional_field<T: FromJson>(doc: &Json, name: &str) -> (read: Option<Option<T>>)
    ensures
        read.deep_view() == optional::<T>(doc@.get(name@)),
{
    match doc.get(name) {
        None => Some(None),
        Some(Json::Null) => Some(None),
        Some(found) => match T::from_json(found) {
            Some(value) => Some(Some(value)),
            None => None,
        },
    }
}

impl FromJson for String {
    open spec fn of_json(doc: JsonValue) -> Option<Seq<char>> {
        match doc {
            JsonValue::Str(text) => Some(text),
            _ => None,
        }
    }

    fn from_json(doc: &Json) -> (read: Option<String>) {
        match doc {
            Json::Str(text) => Some(text.clone()),
            _ => None,
        }
    }
}

impl FromJson for bool {
    open spec fn of_json(doc: JsonValue) -> Option<bool> {
        match doc {
            JsonValue::Bool(b) => Some(b),
            _ => None,
        }
    }

    fn from_json(doc: &Json) -> (read: Option<bool>) {
        match doc {
            Json::Bool(b) => Some(*b),
            _ => None,
        }
    }
}

/// The number that a document writes in decimal digits, where it is no greater
/// than `max`.
pub open spec fn count(doc: JsonValue, max: nat) -> Option<nat> {
    match doc {
        JsonValue::Number(text) => match decimal(text) {
            Some(n) => if n <= max {
                Some(n)
            } else {
                None
            },
            None => None,
        },
        _ => None,
    }
}

impl FromJson for u16 {
    open spec fn of_json(doc: JsonValue) -> Option<u16> {
        match count(doc, u16::MAX as nat) {
            Some(n) => Some(n as u16),
            None => None,
        }
    }

    fn from_json(doc: &Json) -> (read: Option<u16>) {
        match doc {
            Json::Number(text) => match parse_decimal(text.as_str(), 65535) {
                Some(n) => Some(n as u16),
                None => None,
            },
            _ => None,
        }
    }
}

impl FromJson for usize {
    open spec fn of_json(doc: JsonValue) -> Option<usize> {
        match count(doc, usize::MAX as nat) {
            Some(n) => Some(n as usize),
            None => None,
        }
    }

    fn from_json(doc: &Json) -> (read: Option<usize>) {
        match doc {
            Json::Number(text) => match parse_decimal(text.as_str(), usize::MAX as u64) {
                Some(n) => Some(n as usize),
                None => None,
            },
            _ => None,
        }
    }
}

impl<T: FromJson> FromJson for Vec<T> {
    open spec fn of_json(doc: JsonValue) -> Option<Seq<T::V>> {
        match doc {
            JsonValue::Array(items) => each::<T>(items),
            _ => None,
        }
    }

    fn from_json(doc: &Json) -> (read: Option<Vec<T>>) {
        match doc {
            Json::Array(items) => {
                proof {
                    lemma_array_view(doc);
                }
                let mut out: Vec<T> = Vec::new();
                let mut i: usize = 0;
                while i < items.len()
                    invariant
                        i <= items.len(),
                        out@.len() == i,
                        doc@ is Array,
                        doc@->Array_0.len() == items@.len(),
                        forall|k: int| 0 <= k < items@.len() ==> doc@->Array_0[k] == items@[k]@,
                        forall|k: int|
                            0 <= k < i ==> T::of_json(doc@->Array_0[k]) == Some(
                                #[trigger] out@[k].deep_view(),
                            ),
                    decreases items.len() - i,
                {
                    match T::from_json(&items[i]) {
                        Some(item) => {
                            out.push(item);
                        },
                        None => {
                            assert(T::of_json(doc@->Array_0[i as int]) is None);
                            return None;
                        },
                    }
                    i += 1;
                }
                proof {
                    let all = doc@->Array_0;
                    assert forall|k: int| 0 <= k < all.len() implies (#[trigger] T::of_json(
                        all[k],
                    )) is Some by {
                        assert(T::of_json(all[k]) == Some(out@[k].deep_view()));
                    }
                    assert(out.deep_view() =~= each::<T>(all)->0);
                }
                Some(out)
            },
            _ => None,
        }
    }
}

/// A type that can be written as a JSON document.
pub trait ToJson {
    /// The document that stands for the value.
    spec fn json(&self) -> JsonValue;

    /// Writes the value as a document.
    fn to_json(&self) -> (doc: Json)
        ensures
            doc@ == self.json(),
    ;
}

impl ToJson for String {
    open spec fn json(&self) -> JsonValue {
        JsonValue::Str(self@)
    }

    fn to_json(&self) -> (doc: Json) {
        Json::Str(self.clone())
    }
}

impl ToJson for bool {
    open spec fn json(&self) -> JsonValue {
        JsonValue::Bool(*self)
    }

    fn to_json(&self) -> (doc: Json) {
        Json::Bool(*self)
    }
}

impl<T: ToJson> ToJson for Option<T> {
    open spec fn json(&self) -> JsonValue {
        match self {
            Some(value) => value.json(),
            None => JsonValue::Null,
        }
    }

    fn to_json(&self) -> (doc: Json) {
        match self {
            Some(value) => value.to_json(),
            None => Json::Null,
        }
    }
}

impl<T: ToJson> ToJson for Vec<T> {
    open spec fn json(&self) -> JsonValue {
        JsonValue::Array(Seq::new(self@.len(), |i: int| self@[i].json()))
    }

    fn to_json(&self) -> (doc: Json) {
        let mut items: Vec<Json> = Vec::new();
        let mut i: usize = 0;
        while i < self.len()
            invariant
                i <= self@.len(),
                items@.len() == i,
                forall|k: int| 0 <= k < i ==> (#[trigger] items@[k])@ == self@[k].json(),
            decreases self.len() - i,
        {
            items.push(self[i].to_json());
            i += 1;
        }
        let doc = Json::Array(items);
        proof {
            lemma_array_view(&doc);
            assert(doc@->Array_0 =~= self.json()->Array_0);
        }
        doc
    }
}

/// The members of an object read as a table: each member's name with its value
/// read as a `T`, in the object's order.
#[derive(Debug, PartialEq, Eq)]
pub struct Table<T> {
    pub entries: Vec<(String, T)>,
}

impl<T: DeepView> DeepView for Table<T> {
    type V = Seq<(Seq<char>, T::V)>;

    open spec fn deep_view(&self) -> Seq<(Seq<char>, T::V)> {
        self.entries.deep_view()
    }
}

/// What the members of an object say, each value read as a `T`; nothing where
/// one of them is no `T`.
pub open spec fn each_member<T: FromJson>(members: Seq<MemberValue>) -> Option<
    Seq<(Seq<char>, T::V)>,
> {
    if forall|i: int| 0 <= i < members.len() ==> (#[trigger] T::of_json(members[i].value)) is Some {
        Some(Seq::new(members.len(), |i: int| (members[i].name, T::of_json(members[i].value)->0)))
    } else {
        None
    }
}

impl<T: FromJson> FromJson for Table<T> {
    open spec fn of_json(doc: JsonValue) -> Option<Seq<(Seq<char>, T::V)>> {
        match doc {
            JsonValue::Object(members) => each_member::<T>(members),
            _ => None,
        }
    }

    fn from_json(doc: &Json) -> (read: Option<Table<T>>) {
        match doc {
            Json::Object(members) => {
                proof {
                    lemma_object_view(doc);
                }
                let mut out: Vec<(String, T)> = Vec::new();
                let mut i: usize = 0;
                while i < members.len()
                    invariant
                        i <= members.len(),
                        out@.len() == i,
                        doc@ is Object,
                        doc@->Object_0.len() == members@.len(),
                        forall|k: int|
                            0 <= k < members@.len() ==> doc@->Object_0[k] == members@[k]@,
                        forall|k: int|
                            0 <= k < i ==> T::of_json(doc@->Object_0[k].value) == Some(
                                #[trigger] out@[k].1.deep_view(),
                            ) && out@[k].0@ == doc@->Object_0[k].name,
                    decreases members.len() - i,
                {
                    match T::from_json(&members[i].value) {
                        Some(item) => {
                            out.push((members[i].name.clone(), item));
                        },
                        None => {
                            assert(T::of_json(doc@->Object_0[i as int].value) is None);
                            return None;
                        },
                    }
                    i += 1;
                }
                let table = Table { entries: out };
                proof {
                    let all = doc@->Object_0;
                    assert forall|k: int| 0 <= k < all.len() implies (#[trigger] T::of_json(
                        all[k].value,
                    )) is Some by {
                        assert(T::of_json(all[k].value) == Some(out@[k].1.deep_view()));
                    }
                    assert(table.deep_view() =~= each_member::<T>(all)->0);
                }
                Some(table)
            },
            _ => None,
        }
    }
}

} // verus!
