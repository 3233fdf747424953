//! A model of JSON documents.
//!
//! The service answers every request with a JSON body.  The library keeps the
//! decoded document in its own type, `JsonValue`, whose mathematical view is
//! `JsonSpec`: contracts about decoded documents are stated over `JsonSpec`.
//!
//! A number that is neither a non-negative nor a negative integer (the decoder
//! yields it as a binary floating-point value) is kept as its decimal
//! rendering, in the `Float` variant; the classifier never reads it.

use vstd::prelude::*;

verus! {

/// The mathematical shape of a JSON document.
pub enum JsonSpec {
    /// The JSON value `null`.
    Null,
    /// A boolean.
    Bool(bool),
    /// A non-negative integer.
    UInt(u64),
    /// A negative integer.
    Int(i64),
    /// A non-integral number, as its decimal rendering.
    Float(Seq<char>),
    /// A string.
    Str(Seq<char>),
    /// An array.
    Arr(Seq<JsonSpec>),
    /// An object: a sequence of key/value pairs.
    Obj(Seq<(Seq<char>, JsonSpec)>),
}

/// A decoded JSON document.
#[derive(Debug, PartialEq, Eq)]
pub enum JsonValue {
    /// The JSON value `null`.
    Null,
    /// A boolean.
    Bool(bool),
    /// A non-negative integer.
    UInt(u64),
    /// A negative integer.
    Int(i64),
    /// A non-integral number, as its decimal rendering.
    Float(String),
    /// A string.
    Str(String),
    /// An array.
    Arr(Vec<JsonValue>),
    /// An object: key/value pairs in the decoder's order.
    Obj(Vec<(String, JsonValue)>),
}

/// The mathematical view of a decoded document.
pub open spec fn json_view(v: JsonValue) -> JsonSpec
    decreases v,
{
    match v {
        JsonValue::Null => JsonSpec::Null,
        JsonValue::Bool(b) => JsonSpec::Bool(b),
        JsonValue::UInt(n) => JsonSpec::UInt(n),
        JsonValue::Int(n) => JsonSpec::Int(n),
        JsonValue::Float(s) => JsonSpec::Float(s@),
        JsonValue::Str(s) => JsonSpec::Str(s@),
        JsonValue::Arr(items) => JsonSpec::Arr(arr_view(items@)),
        JsonValue::Obj(pairs) => JsonSpec::Obj(obj_view(pairs@)),
    }
}

/// The view of an array's elements.
pub open spec fn arr_view(items: Seq<JsonValue>) -> Seq<JsonSpec>
    decreases items,
{
    if items.len() == 0 {
        Seq::empty()
    } else {
        seq![json_view(items[0])] + arr_view(items.drop_first())
    }
}

/// The view of an object's key/value pairs.
pub open spec fn obj_view(pairs: Seq<(String, JsonValue)>) -> Seq<(Seq<char>, JsonSpec)>
    decreases pairs,
{
    if pairs.len() == 0 {
        Seq::empty()
    } else {
        seq![(pairs[0].0@, json_view(pairs[0].1))] + obj_view(pairs.drop_first())
    }
}

impl View for JsonValue {
    type V = JsonSpec;

    open spec fn view(&self) -> JsonSpec {
        json_view(*self)
    }
}

/// An object's view has one pair for each pair of the object: the key's
/// characters and the value's view.
pub proof fn lemma_obj_view(pairs: Seq<(String, JsonValue)>)
    ensures
        obj_view(pairs).len() == pairs.len(),
        forall|i: int| 0 <= i < pairs.len() ==> obj_view(pairs)[i] == (
            pairs[i].0@,
            json_view(pairs[i].1),
        ),
    decreases pairs.len(),
{
    if pairs.len() > 0 {
        lemma_obj_view(pairs.drop_first());
    }
}

/// The value bound to `key` at the key's first occurrence in an object's
/// pairs, if any.
pub open spec fn spec_lookup(pairs: Seq<(Seq<char>, JsonSpec)>, key: Seq<char>) -> Option<
    JsonSpec,
>
    decreases pairs.len(),
{
    if pairs.len() == 0 {
        None
    } else if pairs[0].0 == key {
        Some(pairs[0].1)
    } else {
        spec_lookup(pairs.drop_first(), key)
    }
}

proof fn lemma_lookup_found(pairs: Seq<(Seq<char>, JsonSpec)>, key: Seq<char>, i: int)
    requires
        0 <= i < pairs.len(),
        pairs[i].0 == key,
        forall|j: int| 0 <= j < i ==> pairs[j].0 != key,
    ensures
        spec_lookup(pairs, key) == Some(pairs[i].1),
    decreases i,
{
    if i > 0 {
        lemma_lookup_found(pairs.drop_first(), key, i - 1);
    }
}

proof fn lemma_lookup_missing(pairs: Seq<(Seq<char>, JsonSpec)>, key: Seq<char>)
    requires
        forall|j: int| 0 <= j < pairs.len() ==> pairs[j].0 != key,
    ensures
        spec_lookup(pairs, key) is None,
    decreases pairs.len(),
{
    if pairs.len() > 0 {
        lemma_lookup_missing(pairs.drop_first(), key);
    }
}

/// Finds the value bound to `key` at the key's first occurrence in the
/// object's pairs.
#[verifier::loop_isolation(false)]
pub fn lookup<'a>(pairs: &'a Vec<(String, JsonValue)>, key: &str) -> (r: Option<&'a JsonValue>)
    ensures
        (match r {
            Some(v) => spec_lookup(obj_view(pairs@), key@) == Some(json_view(*v)),
            None => spec_lookup(obj_view(pairs@), key@) is None,
        }),
{
    proof {
        lemma_obj_view(pairs@);
    }
    let owned_key: String = key.to_owned();
    let mut i: usize = 0;
    while i < pairs.len()
        invariant
            0 <= i <= pairs@.len(),
            owned_key@ == key@,
            forall|j: int| 0 <= j < i ==> obj_view(pairs@)[j].0 != key@,
        decreases pairs@.len() - i,
    {
        if pairs[i].0 == owned_key {
            proof {
                lemma_lookup_found(obj_view(pairs@), key@, i as int);
            }
            return Some(&pairs[i].1);
        }
        i = i + 1;
    }
    proof {
        lemma_lookup_missing(obj_view(pairs@), key@);
    }
    None
}

} // verus!
