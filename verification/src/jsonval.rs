//! Parsed JSON values, held as plain data the rest of the library can
//! reason about.
//!
//! The text of a response body is handed to the `json` crate behind a
//! trusted boundary; everything after the parse — looking fields up,
//! reading strings, numbers and flags, walking arrays — is the library's
//! own verified code over [`JsonVal`].
//!
//! The reading policy of the feed mapper lives here: a missing field, a
//! null and a non-scalar all read as the empty string, so one absent field
//! degrades to an empty value instead of failing the whole response.

use vstd::prelude::*;
use vstd::string::*;

use crate::errors::FeedError;
use crate::text::str_eq;

verus! {

/// A parsed JSON value as plain data: the unit of everything the response
/// mapper reads.
///
/// Numbers keep their textual form: the feeds are mapped to string fields,
/// so no numeric interpretation is ever needed.  Object entries keep the
/// order the parser delivered them in; a lookup takes the first entry with
/// the key.
pub enum JsonVal {
    /// JSON `null`.
    Null,
    /// A boolean.
    Bool(bool),
    /// A number, kept as the text the parser rendered it to.
    Num(String),
    /// A string.
    Str(String),
    /// An array.
    Arr(Vec<JsonVal>),
    /// An object, as its entries in order.
    Obj(Vec<(String, JsonVal)>),
}

/// The first value under `key` in the entry list `entries`, if any.
pub open spec fn spec_obj_lookup(entries: Seq<(String, JsonVal)>, key: Seq<char>) -> Option<
    JsonVal,
>
    decreases entries.len(),
{
    if entries.len() == 0 {
        None
    } else if entries[0].0@ == key {
        Some(entries[0].1)
    } else {
        spec_obj_lookup(entries.drop_first(), key)
    }
}

/// The value under `key` in `v`, if `v` is an object with such an entry.
pub open spec fn spec_get(v: JsonVal, key: Seq<char>) -> Option<JsonVal> {
    match v {
        JsonVal::Obj(entries) => spec_obj_lookup(entries@, key),
        _ => None,
    }
}

/// The text a value reads as: a string or number verbatim, a boolean as
/// `true` or `false`, and anything else — null, arrays, objects — as the
/// empty string.
pub open spec fn spec_text_of(v: JsonVal) -> Seq<char> {
    match v {
        JsonVal::Str(s) => s@,
        JsonVal::Num(s) => s@,
        JsonVal::Bool(b) => if b {
            "true"@
        } else {
            "false"@
        },
        _ => Seq::empty(),
    }
}

/// The text the field `key` of `v` reads as; a missing field reads as the
/// empty string.
pub open spec fn spec_str_field(v: JsonVal, key: Seq<char>) -> Seq<char> {
    match spec_get(v, key) {
        Some(x) => spec_text_of(x),
        None => Seq::empty(),
    }
}

/// The flag the field `key` of `v` reads as; anything but a true boolean
/// reads as `false`.
pub open spec fn spec_bool_field(v: JsonVal, key: Seq<char>) -> bool {
    match spec_get(v, key) {
        Some(JsonVal::Bool(b)) => b,
        _ => false,
    }
}

/// The elements of `v`, if `v` is an array; anything else has none.
pub open spec fn spec_elems(v: JsonVal) -> Seq<JsonVal> {
    match v {
        JsonVal::Arr(elems) => elems@,
        _ => Seq::empty(),
    }
}

/// The value under `key` in `v`, with a missing field read as `null`.
pub open spec fn spec_field_or_null(v: JsonVal, key: Seq<char>) -> JsonVal {
    match spec_get(v, key) {
        Some(x) => x,
        None => JsonVal::Null,
    }
}

impl JsonVal {
    /// The value under `key`, if this is an object with such an entry.
    pub fn get<'a>(&'a self, key: &str) -> (r: Option<&'a JsonVal>)
        ensures
            match r {
                Some(x) => spec_get(*self, key@) == Some(*x),
                None => spec_get(*self, key@) is None,
            },
    {
        match self {
            JsonVal::Obj(entries) => {
                let n = entries.len();
                proof {
                    assert(entries@.skip(0) =~= entries@);
                }
                let mut i: usize = 0;
                while i < n
                    invariant
                        i <= n,
                        n == entries@.len(),
                        spec_get(*self, key@) == spec_obj_lookup(entries@, key@),
                        spec_obj_lookup(entries@.skip(i as int), key@) == spec_obj_lookup(
                            entries@,
                            key@,
                        ),
                    decreases n - i,
                {
                    let entry = &entries[i];
                    proof {
                        assert(entries@.skip(i as int)[0] == entries@[i as int]);
                    }
                    if str_eq(entry.0.as_str(), key) {
                        proof {
                            assert(entries@.skip(i as int).len() > 0);
                            assert(spec_obj_lookup(entries@.skip(i as int), key@) == Some(
                                entries@[i as int].1,
                            ));
                        }
                        return Some(&entry.1);
                    }
                    proof {
                        assert(entries@.skip(i as int).drop_first() =~= entries@.skip(i + 1));
                    }
                    i = i + 1;
                }
                proof {
                    assert(entries@.skip(n as int) =~= Seq::<(String, JsonVal)>::empty());
                }
                None
            },
            _ => None,
        }
    }

    /// The text this value reads as, under the reading policy of
    /// [`spec_text_of`].
    pub fn text(&self) -> (r: String)
        ensures
            r@ == spec_text_of(*self),
    {
        match self {
            JsonVal::Str(s) => s.clone(),
            JsonVal::Num(s) => s.clone(),
            JsonVal::Bool(b) => if *b {
                String::from_str("true")
            } else {
                String::from_str("false")
            },
            _ => String::new(),
        }
    }

    /// The text the field `key` reads as; a missing field reads as the
    /// empty string.
    pub fn str_field(&self, key: &str) -> (r: String)
        ensures
            r@ == spec_str_field(*self, key@),
    {
        match self.get(key) {
            Some(x) => x.text(),
            None => String::new(),
        }
    }

    /// The flag the field `key` reads as; anything but a true boolean reads
    /// as `false`.
    pub fn bool_field(&self, key: &str) -> (r: bool)
        ensures
            r == spec_bool_field(*self, key@),
    {
        match self.get(key) {
            Some(x) => match x {
                JsonVal::Bool(b) => *b,
                _ => false,
            },
            None => false,
        }
    }

    /// The number of elements, if this is an array; zero otherwise.
    pub fn elem_count(&self) -> (r: usize)
        ensures
            r == spec_elems(*self).len(),
    {
        match self {
            JsonVal::Arr(elems) => elems.len(),
            _ => 0,
        }
    }

    /// The element at `i` of this array.
    pub fn elem_at<'a>(&'a self, i: usize) -> (r: &'a JsonVal)
        requires
            i < spec_elems(*self).len(),
        ensures
            *r == spec_elems(*self)[i as int],
    {
        match self {
            JsonVal::Arr(elems) => &elems[i],
            _ => unreached(),
        }
    }

    /// The value under `key`, with a missing field read as `null`.
    pub fn field_or_null<'a>(&'a self, key: &str) -> (r: &'a JsonVal)
        ensures
            *r == spec_field_or_null(*self, key@),
    {
        match self.get(key) {
            Some(x) => x,
            None => &JsonVal::Null,
        }
    }
}

/// What `json::parse` returns on the text `s`: the parsed value as plain
/// data, or nothing where `s` is not valid JSON.  The result depends on the
/// text alone.
pub uninterp spec fn json_of(s: Seq<char>) -> Option<JsonVal>;

#[verifier::external_type_specification]
#[verifier::external_body]
pub struct ExJsonError(json::Error);

#[verifier::external_type_specification]
#[verifier::external_body]
pub struct ExJsonValue(json::JsonValue);

/// Relies on `json::parse`: parses the text as JSON, deterministically in
/// the text alone; `Ok` exactly on valid JSON.  The parsed tree is carried
/// over into [`JsonVal`] by [`convert_json`], one node for one node.
#[verifier::external_body]
fn parse_json_raw(text: &str) -> (r: Result<JsonVal, json::Error>)
    ensures
        r matches Ok(v) ==> json_of(text@) == Some(v),
        r is Err ==> json_of(text@) is None,
{
    match json::parse(text) {
        Ok(v) => Ok(convert_json(&v)),
        Err(e) => Err(e),
    }
}

/// Relies on the shape of `json::JsonValue`: carries a parsed tree over
/// into [`JsonVal`], one arm per variant, strings and rendered numbers
/// verbatim, entries and elements in order.  Only `parse_json_raw` calls
/// this; nothing is promised of it beyond what `json_of` names there.
#[verifier::external_body]
fn convert_json(v: &json::JsonValue) -> JsonVal {
    match v {
        json::JsonValue::Null => JsonVal::Null,
        json::JsonValue::Boolean(b) => JsonVal::Bool(*b),
        json::JsonValue::Short(s) => JsonVal::Str(s.as_str().to_string()),
        json::JsonValue::String(s) => JsonVal::Str(s.clone()),
        json::JsonValue::Number(n) => JsonVal::Num(n.to_string()),
        json::JsonValue::Object(o) => JsonVal::Obj(
            o.iter().map(|(k, x)| (k.to_string(), convert_json(x))).collect(),
        ),
        json::JsonValue::Array(a) => JsonVal::Arr(a.iter().map(convert_json).collect()),
    }
}

/// The text `text` parsed as JSON.
///
/// Returns `ParseFailed` exactly when the parser rejects the text:
/// invalid JSON, or JSON nested beyond the parser's depth limit.
pub fn parse_json(text: &str) -> (r: Result<JsonVal, FeedError>)
    ensures
        match r {
            Ok(v) => json_of(text@) == Some(v),
            Err(e) => json_of(text@) is None && e == FeedError::ParseFailed,
        },
{
    match parse_json_raw(text) {
        Ok(v) => Ok(v),
        Err(_) => Err(FeedError::ParseFailed),
    }
}

} // verus!
