//! JSON values as the providers' replies hold them, and their reading from text.

use vstd::prelude::*;

verus! {

/// A 64-bit binary floating-point number of IEEE 754, held as its bit pattern.
///
/// The library carries such numbers from a reply to its caller and never
/// computes with them.
#[derive(Debug, Clone, Copy, PartialEq, Eq)]
pub struct Binary64 {
    pub bits: u64,
}

/// A JSON value.
#[derive(Debug, PartialEq, Eq)]
pub enum Json {
    Null,
    Bool(bool),
    /// A number, as the 64-bit float that it reads as; `None` where it reads as none.
    Number(Option<Binary64>),
    String(String),
    Array(Vec<Json>),
    /// An object: its members, each a key with its value.
    Object(Vec<(String, Json)>),
}

/// A JSON value with its strings as sequences of characters and its arrays and
/// objects as sequences.
pub enum JsonView {
    Null,
    Bool(bool),
    Number(Option<Binary64>),
    String(Seq<char>),
    Array(Seq<JsonView>),
    Object(Seq<(Seq<char>, JsonView)>),
}

/// A value as its view: strings become sequences of characters, arrays and
/// objects sequences of views, in the same order.
pub open spec fn json_view(json: Json) -> JsonView
    decreases json,
{
    match json {
        Json::Null => JsonView::Null,
        Json::Bool(b) => JsonView::Bool(b),
        Json::Number(n) => JsonView::Number(n),
        Json::String(s) => JsonView::String(s@),
        Json::Array(items) => JsonView::Array(
            Seq::new(
                items.len() as nat,
                |i: int|
                    if 0 <= i < items.len() {
                        json_view(items[i])
                    } else {
                        JsonView::Null
                    },
            ),
        ),
        Json::Object(members) => JsonView::Object(
            Seq::new(
                members.len() as nat,
                |i: int|
                    if 0 <= i < members.len() {
                        (members[i].0@, json_view(members[i].1))
                    } else {
                        (Seq::empty(), JsonView::Null)
                    },
            ),
        ),
    }
}

impl View for Json {
    type V = JsonView;

    open spec fn view(&self) -> JsonView {
        json_view(*self)
    }
}

/// The value of the first of `members`, from position `from` on, whose key is `key`.
pub open spec fn value_of_key(
    members: Seq<(Seq<char>, JsonView)>,
    key: Seq<char>,
    from: int,
) -> Option<JsonView>
    decreases members.len() - from,
{
    if from < 0 || from >= members.len() {
        None
    } else if members[from].0 == key {
        Some(members[from].1)
    } else {
        value_of_key(members, key, from + 1)
    }
}

/// The value itself, and `Null` where there is none.
pub open spec fn or_null(value: Option<JsonView>) -> JsonView {
    match value {
        Some(json) => json,
        None => JsonView::Null,
    }
}

impl JsonView {
    /// The value that an object holds under `key`: that of its first member with
    /// that key. `None` where no member has the key and where `self` is no object.
    pub open spec fn member(self, key: Seq<char>) -> Option<JsonView> {
        match self {
            JsonView::Object(members) => value_of_key(members, key, 0),
            _ => None,
        }
    }

    /// The value at position `index` of an array. `None` where the array is
    /// shorter and where `self` is no array.
    pub open spec fn element(self, index: int) -> Option<JsonView> {
        match self {
            JsonView::Array(items) => if 0 <= index < items.len() {
                Some(items[index])
            } else {
                None
            },
            _ => None,
        }
    }

    /// `member`, with `Null` for a value that is not there.
    pub open spec fn at_key(self, key: Seq<char>) -> JsonView {
        or_null(self.member(key))
    }

    /// `element`, with `Null` for a value that is not there.
    pub open spec fn at_index(self, index: int) -> JsonView {
        or_null(self.element(index))
    }
}

/// The views of a value that may be absent.
pub open spec fn view_of(value: Option<&Json>) -> Option<JsonView> {
    match value {
        Some(json) => Some(json@),
        None => None,
    }
}

impl Json {
    /// The value that an object holds under `key`.
    pub fn member(&self, key: &str) -> (value: Option<&Json>)
        ensures
            view_of(value) == self@.member(key@),
    {
        match self {
            Json::Object(members) => {
                let wanted = String::from_str(key);
                let ghost seen = self@->Object_0;
                let mut i: usize = 0;
                while i < members.len()
                    invariant
                        i <= members.len(),
                        wanted@ == key@,
                        self@ == JsonView::Object(seen),
                        seen.len() == members.len(),
                        forall|j: int|
                            0 <= j < members.len() ==> seen[j] == (members[j].0@, members[j].1@),
                        value_of_key(seen, key@, 0) == value_of_key(seen, key@, i as int),
                    decreases members.len() - i,
                {
                    if members[i].0 == wanted {
                        return Some(&members[i].1);
                    }
                    i += 1;
                }
                None
            },
            _ => None,
        }
    }

    /// The value at position `index` of an array.
    pub fn element(&self, index: usize) -> (value: Option<&Json>)
        ensures
            view_of(value) == self@.element(index as int),
    {
        match self {
            Json::Array(items) => if index < items.len() {
                Some(&items[index])
            } else {
                None
            },
            _ => None,
        }
    }
}

/// `serde_json::Value`, the outside crate's own JSON value.
#[verifier::external_type_specification]
#[verifier::external_body]
pub struct ExValue(serde_json::Value);

/// What `serde_json::from_str` makes of a text: the value that it reads from
/// it, or the message of the error with which it refuses the text.
pub uninterp spec fn json_document(text: Seq<char>) -> Result<JsonView, Seq<char>>;

/// What a `serde_json::Value` holds. The members of an object stand in the
/// order in which the object hands them out.
pub uninterp spec fn value_view(value: serde_json::Value) -> JsonView;

/// The items of an outside array as they stand in the view of the array.
pub open spec fn items_view(items: Seq<serde_json::Value>) -> Seq<JsonView> {
    Seq::new(items.len(), |i: int| value_view(items[i]))
}

/// The members of an outside object as they stand in the view of the object.
pub open spec fn members_view(members: Seq<(&String, &serde_json::Value)>) -> Seq<
    (Seq<char>, JsonView),
> {
    Seq::new(members.len(), |i: int| (members[i].0@, value_view(*members[i].1)))
}

/// Reads a text with `serde_json::from_str`, as a `serde_json::Value`. An
/// error comes back as its message, which is what the error's `Display`
/// writes. The contract claims that the outcome depends on the text alone,
/// and gives it its name.
#[verifier::external_body]
fn read_value(text: &str) -> (outcome: Result<serde_json::Value, String>)
    ensures
        match outcome {
            Ok(value) => json_document(text@) == Ok::<JsonView, Seq<char>>(value_view(value)),
            Err(message) => json_document(text@) == Err::<JsonView, Seq<char>>(message@),
        },
{
    match serde_json::from_str::<serde_json::Value>(text) {
        Ok(value) => Ok(value),
        Err(error) => Err(error.to_string()),
    }
}

/// `serde_json::Value::as_bool` gives the boolean that a value is, and `None`
/// for a value that is none.
#[verifier::external_body]
fn value_as_bool(value: &serde_json::Value) -> (found: Option<bool>)
    ensures
        match found {
            Some(b) => value_view(*value) == JsonView::Bool(b),
            None => !(value_view(*value) is Bool),
        },
{
    value.as_bool()
}

/// `serde_json::Value::is_number` tells whether a value is a number.
#[verifier::external_body]
fn value_is_number(value: &serde_json::Value) -> (found: bool)
    ensures
        found == (value_view(*value) is Number),
{
    value.is_number()
}

/// `serde_json::Value::as_f64` gives the 64-bit float that a number reads as,
/// and `None` for a number that reads as none and for a value that is no
/// number. The float comes back as its bits.
#[verifier::external_body]
fn value_as_float(value: &serde_json::Value) -> (found: Option<Binary64>)
    ensures
        match value_view(*value) {
            JsonView::Number(number) => found == number,
            _ => found is None,
        },
{
    value.as_f64().map(|x| Binary64 { bits: x.to_bits() })
}

/// `serde_json::Value::as_str` gives the string that a value is, and `None`
/// for a value that is none.
#[verifier::external_body]
fn value_as_str(value: &serde_json::Value) -> (found: Option<&str>)
    ensures
        match found {
            Some(text) => value_view(*value) == JsonView::String(text@),
            None => !(value_view(*value) is String),
        },
{
    value.as_str()
}

/// `serde_json::Value::as_array` gives the items of the array that a value
/// is, and `None` for a value that is none.
#[verifier::external_body]
fn value_as_array(value: &serde_json::Value) -> (found: Option<&Vec<serde_json::Value>>)
    ensures
        match found {
            Some(items) => value_view(*value) == JsonView::Array(items_view(items@)),
            None => !(value_view(*value) is Array),
        },
{
    value.as_array()
}

/// `serde_json::Value::as_object` gives the map that a value is, and `None`
/// for a value that is none. The members of the map are handed out by
/// `serde_json::Map::iter`, in its order.
#[verifier::external_body]
fn value_as_object(value: &serde_json::Value) -> (found: Option<
    Vec<(&String, &serde_json::Value)>,
>)
    ensures
        match found {
            Some(members) => value_view(*value) == JsonView::Object(members_view(members@)),
            None => !(value_view(*value) is Object),
        },
{
    value.as_object().map(|members| members.iter().collect())
}

impl Json {
    /// Rewrites an outside value as a `Json` that holds the same.
    fn from_value(value: &serde_json::Value) -> (json: Json)
        ensures
            json@ == value_view(*value),
        decreases value_view(*value),
    {
        if let Some(b) = value_as_bool(value) {
            return Json::Bool(b);
        }
        if value_is_number(value) {
            return Json::Number(value_as_float(value));
        }
        if let Some(text) = value_as_str(value) {
            return Json::String(String::from_str(text));
        }
        if let Some(items) = value_as_array(value) {
            let mut list: Vec<Json> = Vec::new();
            let mut i: usize = 0;
            while i < items.len()
                invariant
                    i <= items.len(),
                    list.len() == i,
                    value_view(*value) == JsonView::Array(items_view(items@)),
                    forall|j: int| 0 <= j < i ==> list[j]@ == value_view(items[j]),
                decreases items.len() - i,
            {
                proof {
                    let whole = value_view(*value);
                    assert(whole->Array_0[i as int] == value_view(items[i as int]));
                    assert(decreases_to!(whole => whole->Array_0));
                    assert(decreases_to!(whole->Array_0 => whole->Array_0[i as int]));
                }
                list.push(Json::from_value(&items[i]));
                i += 1;
            }
            let json = Json::Array(list);
            assert(json@->Array_0 =~= items_view(items@));
            return json;
        }
        if let Some(members) = value_as_object(value) {
            let mut list: Vec<(String, Json)> = Vec::new();
            let mut i: usize = 0;
            while i < members.len()
                invariant
                    i <= members.len(),
                    list.len() == i,
                    value_view(*value) == JsonView::Object(members_view(members@)),
                    forall|j: int|
                        0 <= j < i ==> list[j].0@ == members[j].0@ && list[j].1@ == value_view(
                            *members[j].1,
                        ),
                decreases members.len() - i,
            {
                proof {
                    let whole = value_view(*value);
                    assert(whole->Object_0[i as int] == (
                        members[i as int].0@,
                        value_view(*members[i as int].1),
                    ));
                    assert(decreases_to!(whole => whole->Object_0));
                    assert(decreases_to!(whole->Object_0 => whole->Object_0[i as int]));
                    assert(decreases_to!(whole->Object_0[i as int] => whole->Object_0[i as int].1));
                }
                let key = members[i].0.clone();
                let json = Json::from_value(members[i].1);
                list.push((key, json));
                i += 1;
            }
            let json = Json::Object(list);
            assert(json@->Object_0 =~= members_view(members@));
            return json;
        }
        Json::Null
    }

    /// Reads a text as JSON. The text is read by `serde_json`; what comes back
    /// is the value that it holds, or the message with which it was refused.
    pub fn parse(text: &str) -> (outcome: Result<Json, String>)
        ensures
            match outcome {
                Ok(json) => json_document(text@) == Ok::<JsonView, Seq<char>>(json@),
                Err(message) => json_document(text@) == Err::<JsonView, Seq<char>>(message@),
            },
    {
        match read_value(text) {
            Ok(value) => Ok(Json::from_value(&value)),
            Err(message) => Err(message),
        }
    }
}

} // verus!
