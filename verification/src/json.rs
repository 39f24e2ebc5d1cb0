//! A plain model of decoded JSON, for the few places where the service
//! answers with data of no fixed shape.

use vstd::prelude::*;
use crate::text::same_text;

verus! {

/// A JSON number. Only non-negative integers are read as numbers here; a
/// fraction is carried as its decimal text.
#[derive(Debug, Clone, PartialEq, Eq)]
pub enum JsonNumber {
    PosInt(u64),
    NegInt(i64),
    Float(String),
}

/// A decoded JSON value. An object holds its members in order; a name
/// occurs at most once in what a decoder delivers, and where it occurs
/// again the last member of that name counts.
#[derive(Debug)]
pub enum JsonValue {
    Null,
    Bool(bool),
    Number(JsonNumber),
    String(String),
    Array(Vec<JsonValue>),
    Object(Vec<(String, JsonValue)>),
}

/// Position of the member that counts for `name`: the last one of that
/// name.
pub open spec fn member_index(members: Seq<(String, JsonValue)>, name: Seq<char>) -> Option<int>
    decreases members.len(),
{
    if members.len() == 0 {
        None
    } else if members.last().0@ == name {
        Some(members.len() - 1)
    } else {
        member_index(members.drop_last(), name)
    }
}

/// A position that `member_index` gives lies within the members, and the
/// member there has the name asked for.
pub proof fn lemma_member_index_in_range(members: Seq<(String, JsonValue)>, name: Seq<char>)
    ensures
        member_index(members, name) matches Some(index) ==> 0 <= index < members.len()
            && members[index].0@ == name,
    decreases members.len(),
{
    if members.len() > 0 && members.last().0@ != name {
        lemma_member_index_in_range(members.drop_last(), name);
    }
}

impl JsonValue {
    /// The member of an object under `name`; `None` for a value that is no
    /// object or has no such member.
    pub open spec fn member(self, name: Seq<char>) -> Option<JsonValue> {
        match self {
            JsonValue::Object(members) => match member_index(members@, name) {
                Some(index) => Some(members@[index].1),
                None => None,
            },
            _ => None,
        }
    }

    /// The number, if the value is a non-negative integer.
    pub open spec fn number(self) -> Option<u64> {
        match self {
            JsonValue::Number(JsonNumber::PosInt(n)) => Some(n),
            _ => None,
        }
    }

    /// The text, if the value is a string.
    pub open spec fn text(self) -> Option<Seq<char>> {
        match self {
            JsonValue::String(text) => Some(text@),
            _ => None,
        }
    }

    /// The items, if the value is an array.
    pub open spec fn items(self) -> Option<Seq<JsonValue>> {
        match self {
            JsonValue::Array(items) => Some(items@),
            _ => None,
        }
    }

    /// The text of the member under `name`, if the value has that member
    /// and the member is a string.
    pub open spec fn member_text(self, name: Seq<char>) -> Option<Seq<char>> {
        match self.member(name) {
            Some(member) => member.text(),
            None => None,
        }
    }

    /// The number of the member under `name`, if the value has that member
    /// and the member is a non-negative integer.
    pub open spec fn member_number(self, name: Seq<char>) -> Option<u64> {
        match self.member(name) {
            Some(member) => member.number(),
            None => None,
        }
    }

    /// The member of an object under `name`.
    pub fn get(&self, name: &str) -> (found: Option<&JsonValue>)
        ensures
            found is Some == self.member(name@) is Some,
            found matches Some(value) ==> *value == self.member(name@)->0,
    {
        match self {
            JsonValue::Object(members) => {
                let mut i: usize = members.len();
                assert(members@.take(i as int) == members@);
                while i > 0
                    invariant
                        *self == JsonValue::Object(*members),
                        i <= members.len(),
                        member_index(members@, name@) == member_index(
                            members@.take(i as int),
                            name@,
                        ),
                    decreases i,
                {
                    i = i - 1;
                    assert(members@.take(i + 1).drop_last() == members@.take(i as int));
                    assert(members@.take(i + 1).last() == members@[i as int]);
                    if same_text(members[i].0.as_str(), name) {
                        return Some(&members[i].1);
                    }
                }
                None
            },
            _ => None,
        }
    }

    /// The number, if the value is a non-negative integer.
    pub fn as_u64(&self) -> (number: Option<u64>)
        ensures
            number == self.number(),
    {
        match self {
            JsonValue::Number(JsonNumber::PosInt(n)) => Some(*n),
            _ => None,
        }
    }

    /// The text, if the value is a string.
    pub fn as_str(&self) -> (text: Option<&str>)
        ensures
            text is Some == self.text() is Some,
            text matches Some(t) ==> t@ == self.text()->0,
    {
        match self {
            JsonValue::String(text) => Some(text.as_str()),
            _ => None,
        }
    }

    /// The items, if the value is an array.
    pub fn as_array(&self) -> (items: Option<&Vec<JsonValue>>)
        ensures
            items is Some == self.items() is Some,
            items matches Some(v) ==> v@ == self.items()->0,
    {
        match self {
            JsonValue::Array(items) => Some(items),
            _ => None,
        }
    }

    /// Reads the text of the member under `name`.
    pub fn get_text(&self, name: &str) -> (text: Option<String>)
        ensures
            text is Some == self.member_text(name@) is Some,
            text matches Some(found) ==> found@ == self.member_text(name@)->0,
    {
        match self.get(name) {
            Some(member) => match member.as_str() {
                Some(text) => Some(text.to_owned()),
                None => None,
            },
            None => None,
        }
    }

    /// Reads the number of the member under `name`.
    pub fn get_u64(&self, name: &str) -> (number: Option<u64>)
        ensures
            number == self.member_number(name@),
    {
        match self.get(name) {
            Some(member) => member.as_u64(),
            None => None,
        }
    }
}

} // verus!
