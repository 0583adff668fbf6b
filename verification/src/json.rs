//! Replies of the server as trees of values.
//!
//! serde_json reads the text. What it has read is copied into a tree of this
//! library, and the readers of the replies work on that tree: they find the
//! fields of an object by their names and take each by its kind, as the
//! replies are laid out (a field that is missing counts as empty).

use crate::error::Error;
use vstd::prelude::*;

verus! {

/// A value of a reply.
#[derive(Debug, PartialEq)]
pub enum Json {
    Null,
    Bool(bool),
    /// A number: its value where it is a whole number from 0 to the largest
    /// `u64`, nothing for any other number.
    Number(Option<u64>),
    Str(String),
    Array(Vec<Json>),
    /// An object: its fields with their names, in the order in which serde_json
    /// keeps them.
    Object(Vec<(String, Json)>),
}

/// serde_json's `Value`, taken as it comes: nothing inside it is seen here.
#[verifier::external_type_specification]
#[verifier::external_body]
pub struct ExValue(serde_json::Value);

/// What serde_json's `from_str` makes of a text: the tree of the value that it
/// read, or the message of the error that it gave.
pub uninterp spec fn parsed_json(text: Seq<char>) -> Result<Json, Seq<char>>;

/// The tree that a value of serde_json holds.
pub uninterp spec fn tree_of(v: serde_json::Value) -> Json;

/// Calls serde_json's `from_str` for a `Value`. The result is only named: the
/// value read, by the tree that it holds, or the text of serde_json's error.
#[verifier::external_body]
fn read_value(text: &str) -> (r: Result<serde_json::Value, String>)
    ensures
        match r {
            Ok(v) => parsed_json(text@) == Ok::<Json, Seq<char>>(tree_of(v)),
            Err(m) => parsed_json(text@) == Err::<Json, Seq<char>>(m@),
        },
{
    match serde_json::from_str::<serde_json::Value>(text) {
        Ok(v) => Ok(v),
        Err(e) => Err(e.to_string()),
    }
}

/// Copies a value of serde_json into a tree, variant by variant. Of a number
/// it keeps what `Number::as_u64` gives; the fields of an object come in the
/// order of `Map::iter`.
#[verifier::external_body]
fn copy_value(v: &serde_json::Value) -> (r: Json)
    ensures
        r == tree_of(*v),
{
    match v {
        serde_json::Value::Null => Json::Null,
        serde_json::Value::Bool(b) => Json::Bool(*b),
        serde_json::Value::Number(n) => Json::Number(n.as_u64()),
        serde_json::Value::String(s) => Json::Str(s.clone()),
        serde_json::Value::Array(a) => Json::Array(a.iter().map(copy_value).collect()),
        serde_json::Value::Object(m) => Json::Object(
            m.iter().map(|(k, x)| (k.clone(), copy_value(x))).collect(),
        ),
    }
}

/// The error of a reply whose text is JSON but not laid out as expected.
pub open spec fn is_shape_error(e: Error) -> bool {
    e matches Error::DeserializeError(m) && m@ == "unexpected layout of the reply"@
}

/// The error of a reply whose text is JSON but not laid out as expected.
pub fn shape_error() -> (e: Error)
    ensures
        is_shape_error(e),
{
    Error::DeserializeError(String::from_str("unexpected layout of the reply"))
}

/// What a search for a field gave.
pub enum Found<T> {
    /// No field has the name.
    Missing,
    /// One field has it: this is its value.
    One(T),
    /// More than one field has it.
    Many,
}

/// Whether the field `e` goes by one of the two names.
pub open spec fn is_named(e: (String, Json), a: Seq<char>, b: Seq<char>) -> bool {
    e.0@ == a || e.0@ == b
}

/// The field of `fields` that goes by the name `a` or by the name `b`.
pub open spec fn found(fields: Seq<(String, Json)>, a: Seq<char>, b: Seq<char>) -> Found<Json> {
    if forall|i: int| 0 <= i < fields.len() ==> !is_named(#[trigger] fields[i], a, b) {
        Found::Missing
    } else {
        let i = choose|i: int| 0 <= i < fields.len() && is_named(#[trigger] fields[i], a, b);
        if forall|j: int| 0 <= j < fields.len() && j != i ==> !is_named(#[trigger] fields[j], a, b) {
            Found::One(fields[i].1)
        } else {
            Found::Many
        }
    }
}

/// The text of the field: empty where the field is missing, nothing where the
/// field holds no text or is there twice.
pub open spec fn text_at(fields: Seq<(String, Json)>, a: Seq<char>, b: Seq<char>) -> Option<
    Seq<char>,
> {
    match found(fields, a, b) {
        Found::Missing => Some(Seq::empty()),
        Found::One(Json::Str(s)) => Some(s@),
        _ => None,
    }
}

/// The text of a field that must be there and may hold `null`, which counts
/// as empty.
pub open spec fn nullable_text_at(
    fields: Seq<(String, Json)>,
    a: Seq<char>,
    b: Seq<char>,
) -> Option<Seq<char>> {
    match found(fields, a, b) {
        Found::One(Json::Null) => Some(Seq::empty()),
        Found::One(Json::Str(s)) => Some(s@),
        _ => None,
    }
}

/// The number of the field: 0 where the field is missing, nothing where the
/// field holds no whole number from 0 to `max` or is there twice.
pub open spec fn number_at(
    fields: Seq<(String, Json)>,
    a: Seq<char>,
    b: Seq<char>,
    max: u64,
) -> Option<u64> {
    match found(fields, a, b) {
        Found::Missing => Some(0),
        Found::One(Json::Number(Some(n))) => if n <= max {
            Some(n)
        } else {
            None
        },
        _ => None,
    }
}

/// The items of the field: none where the field is missing, nothing where the
/// field holds no list or is there twice.
pub open spec fn list_at(fields: Seq<(String, Json)>, a: Seq<char>, b: Seq<char>) -> Option<
    Seq<Json>,
> {
    match found(fields, a, b) {
        Found::Missing => Some(Seq::empty()),
        Found::One(Json::Array(v)) => Some(v@),
        _ => None,
    }
}

/// The fields of the object that the field holds: none where the field is
/// missing, nothing where the field holds no object or is there twice.
pub open spec fn object_at(fields: Seq<(String, Json)>, a: Seq<char>, b: Seq<char>) -> Option<
    Seq<(String, Json)>,
> {
    match found(fields, a, b) {
        Found::Missing => Some(Seq::empty()),
        Found::One(Json::Object(v)) => Some(v@),
        _ => None,
    }
}

impl Json {
    /// Reads `text` as JSON.
    pub fn parse(text: &str) -> (r: Result<Json, Error>)
        ensures
            match parsed_json(text@) {
                Ok(j) => r == Ok::<Json, Error>(j),
                Err(m) => r matches Err(Error::DeserializeError(s)) && s@ == m,
            },
    {
        match read_value(text) {
            Ok(v) => Ok(copy_value(&v)),
            Err(m) => Err(Error::DeserializeError(m)),
        }
    }

    /// The fields of an object; nothing for any other value.
    pub open spec fn fields(self) -> Option<Seq<(String, Json)>> {
        match self {
            Json::Object(v) => Some(v@),
            _ => None,
        }
    }

    /// The items of a list; nothing for any other value.
    pub open spec fn items(self) -> Option<Seq<Json>> {
        match self {
            Json::Array(v) => Some(v@),
            _ => None,
        }
    }

    /// The fields of an object.
    pub fn as_object(&self) -> (r: Result<&Vec<(String, Json)>, Error>)
        ensures
            match self.fields() {
                Some(f) => r matches Ok(v) && v@ == f,
                None => r matches Err(e) && is_shape_error(e),
            },
    {
        match self {
            Json::Object(v) => Ok(v),
            _ => Err(shape_error()),
        }
    }

    /// The items of a list.
    pub fn as_array(&self) -> (r: Result<&Vec<Json>, Error>)
        ensures
            match self.items() {
                Some(f) => r matches Ok(v) && v@ == f,
                None => r matches Err(e) && is_shape_error(e),
            },
    {
        match self {
            Json::Array(v) => Ok(v),
            _ => Err(shape_error()),
        }
    }
}

/// Looks for the field that goes by the name `a` or by the name `b`.
pub fn find<'a>(fields: &'a Vec<(String, Json)>, a: &str, b: &str) -> (r: Found<&'a Json>)
    ensures
        match found(fields@, a@, b@) {
            Found::Missing => r is Missing,
            Found::One(j) => r matches Found::One(x) && *x == j,
            Found::Many => r is Many,
        },
{
    let first = String::from_str(a);
    let second = String::from_str(b);
    let n: usize = fields.len();
    let mut at: Option<usize> = None;
    let mut i: usize = 0;
    while i < n
        invariant
            n == fields@.len(),
            i <= n,
            first@ == a@,
            second@ == b@,
            at is None ==> forall|k: int| 0 <= k < i ==> !is_named(#[trigger] fields@[k], a@, b@),
            at matches Some(p) ==> {
                &&& p < i
                &&& is_named(fields@[p as int], a@, b@)
                &&& forall|k: int|
                    0 <= k < i && k != p ==> !is_named(#[trigger] fields@[k], a@, b@)
            },
        decreases n - i,
    {
        if fields[i].0 == first || fields[i].0 == second {
            match at {
                Some(p) => {
                    proof {
                        let w = choose|w: int|
                            0 <= w < fields@.len() && is_named(#[trigger] fields@[w], a@, b@);
                        if w == p as int {
                            assert(is_named(fields@[i as int], a@, b@));
                        } else {
                            assert(is_named(fields@[p as int], a@, b@));
                        }
                    }
                    return Found::Many;
                },
                None => {
                    at = Some(i);
                },
            }
        }
        i += 1;
    }
    match at {
        Some(p) => {
            proof {
                let w = choose|w: int|
                    0 <= w < fields@.len() && is_named(#[trigger] fields@[w], a@, b@);
                assert(w == p as int);
            }
            Found::One(&fields[p].1)
        },
        None => Found::Missing,
    }
}

/// The text of a field.
pub fn text_field(fields: &Vec<(String, Json)>, a: &str, b: &str) -> (r: Result<String, Error>)
    ensures
        match text_at(fields@, a@, b@) {
            Some(s) => r matches Ok(v) && v@ == s,
            None => r matches Err(e) && is_shape_error(e),
        },
{
    match find(fields, a, b) {
        Found::Missing => Ok(String::new()),
        Found::One(Json::Str(s)) => Ok(s.clone()),
        _ => Err(shape_error()),
    }
}

/// The text of a field that must be there and may hold `null`.
pub fn nullable_text_field(fields: &Vec<(String, Json)>, a: &str, b: &str) -> (r: Result<
    String,
    Error,
>)
    ensures
        match nullable_text_at(fields@, a@, b@) {
            Some(s) => r matches Ok(v) && v@ == s,
            None => r matches Err(e) && is_shape_error(e),
        },
{
    match find(fields, a, b) {
        Found::One(Json::Null) => Ok(String::new()),
        Found::One(Json::Str(s)) => Ok(s.clone()),
        _ => Err(shape_error()),
    }
}

/// The number of a field, which may not be above `max`.
pub fn number_field(fields: &Vec<(String, Json)>, a: &str, b: &str, max: u64) -> (r: Result<
    u64,
    Error,
>)
    ensures
        match number_at(fields@, a@, b@, max) {
            Some(n) => r == Ok::<u64, Error>(n),
            None => r matches Err(e) && is_shape_error(e),
        },
{
    match find(fields, a, b) {
        Found::Missing => Ok(0),
        Found::One(Json::Number(Some(n))) => {
            if *n <= max {
                Ok(*n)
            } else {
                Err(shape_error())
            }
        },
        _ => Err(shape_error()),
    }
}

/// The items of a field; `None` stands for a missing field, which has none.
pub fn list_field<'a>(fields: &'a Vec<(String, Json)>, a: &str, b: &str) -> (r: Result<
    Option<&'a Vec<Json>>,
    Error,
>)
    ensures
        match list_at(fields@, a@, b@) {
            Some(s) => r matches Ok(o) && match o {
                Some(v) => v@ == s,
                None => s.len() == 0,
            },
            None => r matches Err(e) && is_shape_error(e),
        },
{
    match find(fields, a, b) {
        Found::Missing => Ok(None),
        Found::One(Json::Array(v)) => Ok(Some(v)),
        _ => Err(shape_error()),
    }
}

/// The fields of the object that a field holds; `None` stands for a missing
/// field, which has none.
pub fn object_field<'a>(fields: &'a Vec<(String, Json)>, a: &str, b: &str) -> (r: Result<
    Option<&'a Vec<(String, Json)>>,
    Error,
>)
    ensures
        match object_at(fields@, a@, b@) {
            Some(s) => r matches Ok(o) && match o {
                Some(v) => v@ == s,
                None => s.len() == 0,
            },
            None => r matches Err(e) && is_shape_error(e),
        },
{
    match find(fields, a, b) {
        Found::Missing => Ok(None),
        Found::One(Json::Object(v)) => Ok(Some(v)),
        _ => Err(shape_error()),
    }
}

} // verus!
