//! Schema-free structured values, as search requests and responses carry them.

use vstd::prelude::*;

verus! {

/// A dynamic value: null, a boolean, a number, a string, an array or an
/// object.
///
/// An object is its members in the order they were written. Where a key
/// occurs more than once, the first occurrence is the member of that name.
/// A number is an unsigned integer, a negative integer, or a real given by
/// the 64 bits of its IEEE 754 encoding.
#[derive(Debug, PartialEq)]
pub enum Json {
    Null,
    Bool(bool),
    Unsigned(u64),
    Negative(i64),
    Real(u64),
    Text(String),
    Array(Vec<Json>),
    Object(Vec<(String, Json)>),
}

/// The index of the first member named `key` at or after `from`, if any.
pub open spec fn position_from(members: Seq<(String, Json)>, key: Seq<char>, from: int) -> Option<int>
    decreases members.len() - from,
{
    if from < 0 || from >= members.len() {
        None
    } else if members[from].0@ == key {
        Some(from)
    } else {
        position_from(members, key, from + 1)
    }
}

/// The index of the first member named `key`, if any.
pub open spec fn position(members: Seq<(String, Json)>, key: Seq<char>) -> Option<int> {
    position_from(members, key, 0)
}

/// Finds the first member named `key`.
pub fn find_member(members: &Vec<(String, Json)>, key: &str) -> (r: Option<usize>)
    ensures
        match r {
            Some(i) => {
                &&& i < members.len()
                &&& members@[i as int].0@ == key@
                &&& forall|j: int| 0 <= j < i ==> members@[j].0@ != key@
                &&& position(members@, key@) == Some(i as int)
            },
            None => {
                &&& forall|j: int| 0 <= j < members.len() ==> members@[j].0@ != key@
                &&& position(members@, key@).is_none()
            },
        },
{
    let wanted = String::from_str(key);
    let mut i: usize = 0;
    while i < members.len()
        invariant
            i <= members.len(),
            wanted@ == key@,
            forall|j: int| 0 <= j < i ==> members@[j].0@ != key@,
            position(members@, key@) == position_from(members@, key@, i as int),
        decreases members.len() - i,
    {
        if members[i].0 == wanted {
            return Some(i);
        }
        i += 1;
    }
    None
}

impl Json {
    /// The member named `key`, if the value is an object that has one.
    pub open spec fn member(self, key: Seq<char>) -> Option<Json> {
        match self {
            Json::Object(members) => match position(members@, key) {
                Some(i) => Some(members@[i].1),
                None => None,
            },
            _ => None,
        }
    }

    /// The string, if the value is one.
    pub open spec fn text(self) -> Option<String> {
        match self {
            Json::Text(s) => Some(s),
            _ => None,
        }
    }

    /// The elements, if the value is an array.
    pub open spec fn elements(self) -> Option<Vec<Json>> {
        match self {
            Json::Array(items) => Some(items),
            _ => None,
        }
    }

    /// The number, if the value is an unsigned integer.
    pub open spec fn unsigned(self) -> Option<u64> {
        match self {
            Json::Unsigned(n) => Some(n),
            _ => None,
        }
    }

    /// Whether the value is an object.
    pub fn is_object(&self) -> (r: bool)
        ensures
            r == (*self is Object),
    {
        match self {
            Json::Object(_) => true,
            _ => false,
        }
    }

    /// Borrows the member named `key`.
    pub fn get(&self, key: &str) -> (r: Option<&Json>)
        ensures
            match r {
                Some(v) => self.member(key@) == Some(*v),
                None => self.member(key@).is_none(),
            },
    {
        match self {
            Json::Object(members) => match find_member(members, key) {
                Some(i) => Some(&members[i].1),
                None => None,
            },
            _ => None,
        }
    }

    /// Takes the member named `key` out of the value.
    pub fn take(self, key: &str) -> (r: Option<Json>)
        ensures
            r == self.member(key@),
    {
        match self {
            Json::Object(members) => {
                let mut members = members;
                match find_member(&members, key) {
                    Some(i) => {
                        let pair = members.remove(i);
                        Some(pair.1)
                    },
                    None => None,
                }
            },
            _ => None,
        }
    }

    /// Borrows the string of a string value.
    pub fn as_str(&self) -> (r: Option<&String>)
        ensures
            match r {
                Some(s) => self.text() == Some(*s),
                None => self.text().is_none(),
            },
    {
        match self {
            Json::Text(s) => Some(s),
            _ => None,
        }
    }

    /// Takes the elements out of an array value.
    pub fn into_array(self) -> (r: Option<Vec<Json>>)
        ensures
            r == self.elements(),
    {
        match self {
            Json::Array(items) => Some(items),
            _ => None,
        }
    }

    /// The number of an unsigned integer value.
    pub fn as_u64(&self) -> (r: Option<u64>)
        ensures
            r == self.unsigned(),
    {
        match self {
            Json::Unsigned(n) => Some(*n),
            _ => None,
        }
    }
}

} // verus!
