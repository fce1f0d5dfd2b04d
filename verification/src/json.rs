//! The boundary with `serde_json`.
//!
//! A `serde_json::Value` is opaque to the proofs. What it holds is the tree
//! [`json`] of it, and every function of `serde_json` that the library calls is
//! described here by what it does to trees. Nothing in this module is proved
//! of `serde_json` itself: the items marked as external state what its source
//! shows, built with its default features.

use crate::decimal::{all_digits, decimal_value};
use serde_json::Value;
use vstd::prelude::*;

verus! {

/// A JSON document as a mathematical tree.
pub enum Json {
    Null,
    Bool(bool),
    /// A number without a fraction or an exponent, in the range that 64 bits
    /// hold with or without a sign.
    Integer(int),
    /// Any other number, by the bits of its double precision form.
    Float(u64),
    Text(Seq<char>),
    Array(Seq<Json>),
    /// The members by name. The order of members is no part of a document.
    Object(Map<Seq<char>, Json>),
}

/// Declares `serde_json::Value`, a JSON document.
#[verifier::external_type_specification]
#[verifier::external_body]
pub struct ExValue(serde_json::Value);

/// Declares `serde_json::Map`, the members of a JSON object.
#[verifier::external_type_specification]
#[verifier::external_body]
#[verifier::reject_recursive_types(K)]
#[verifier::reject_recursive_types(V)]
pub struct ExMap<K, V>(serde_json::Map<K, V>);

/// The tree that a `serde_json::Value` holds.
pub uninterp spec fn json(value: serde_json::Value) -> Json;

/// The members that a `serde_json::Map` holds, by name.
pub uninterp spec fn json_members(fields: serde_json::Map<String, serde_json::Value>) -> Map<
    Seq<char>,
    Json,
>;

/// What `serde_json::from_str` makes of a text: the document, or the sentence
/// that says what is wrong with the text.
pub uninterp spec fn parsed(text: Seq<char>) -> Result<Json, Seq<char>>;

/// The compact text that `serde_json::to_string` gives a document.
pub uninterp spec fn serialized(tree: Json) -> Seq<char>;

/// The tree of a value that may be absent.
pub open spec fn optional_json(value: Option<Value>) -> Option<Json> {
    match value {
        Some(present) => Some(json(present)),
        None => None,
    }
}

/// The trees of a row of values.
pub open spec fn json_items(values: Seq<Value>) -> Seq<Json> {
    Seq::new(values.len(), |i: int| json(values[i]))
}

/// The members that a list of entries spells. Of two entries with one name the
/// later counts.
pub open spec fn members(entries: Seq<(Seq<char>, Json)>) -> Map<Seq<char>, Json>
    decreases entries.len(),
{
    if entries.len() == 0 {
        Map::empty()
    } else {
        members(entries.drop_last()).insert(entries.last().0, entries.last().1)
    }
}

/// The object that a list of entries spells.
pub open spec fn object_of(entries: Seq<(Seq<char>, Json)>) -> Json {
    Json::Object(members(entries))
}

/// The member `name` of a document, if the document is an object that has it.
pub open spec fn member(tree: Json, name: Seq<char>) -> Option<Json> {
    match tree {
        Json::Object(fields) if fields.contains_key(name) => Some(fields[name]),
        _ => None,
    }
}

/// The text that a document is, if it is there and is a text.
pub open spec fn text_of(tree: Option<Json>) -> Option<Seq<char>> {
    match tree {
        Some(Json::Text(text)) => Some(text),
        _ => None,
    }
}

/// The array position that a reference token names: digits without a needless
/// leading zero.
pub open spec fn array_position(token: Seq<char>) -> Option<nat> {
    if token.len() > 0 && all_digits(token) && (token.len() == 1 || token[0] != '0') {
        Some(decimal_value(token))
    } else {
        None
    }
}

/// What one reference token leads to.
pub open spec fn child(tree: Json, token: Seq<char>) -> Option<Json> {
    match tree {
        Json::Object(_) => member(tree, token),
        Json::Array(items) => match array_position(token) {
            Some(position) if position < items.len() => Some(items[position as int]),
            _ => None,
        },
        _ => None,
    }
}

/// What a path of reference tokens leads to.
pub open spec fn at(tree: Json, path: Seq<Seq<char>>) -> Option<Json>
    decreases path.len(),
{
    if path.len() == 0 {
        Some(tree)
    } else {
        match child(tree, path[0]) {
            Some(next) => at(next, path.skip(1)),
            None => None,
        }
    }
}

/// The JSON Pointer text of a path: each token behind a slash.
pub open spec fn pointer_text(path: Seq<Seq<char>>) -> Seq<char>
    decreases path.len(),
{
    if path.len() == 0 {
        Seq::empty()
    } else {
        pointer_text(path.drop_last()) + seq!['/'] + path.last()
    }
}

/// Whether a token needs no escaping inside a JSON Pointer.
pub open spec fn is_plain(token: Seq<char>) -> bool {
    forall|i: int| 0 <= i < token.len() ==> #[trigger] token[i] != '/' && token[i] != '~'
}

/// Whether `pointer` is the JSON Pointer text of `path`, with no escapes in it.
pub open spec fn spells(pointer: Seq<char>, path: Seq<Seq<char>>) -> bool {
    &&& pointer == pointer_text(path)
    &&& forall|i: int| 0 <= i < path.len() ==> is_plain(#[trigger] path[i])
}

/// Whether a document holds no number with a fraction or an exponent.
pub open spec fn float_free(tree: Json) -> bool
    decreases tree,
{
    match tree {
        Json::Float(_) => false,
        Json::Array(items) => forall|i: int|
            0 <= i < items.len() ==> float_free(#[trigger] items[i]),
        Json::Object(fields) => {
            &&& fields.dom().finite()
            &&& forall|name: Seq<char>|
                fields.contains_key(name) ==> float_free(#[trigger] fields[name])
        },
        _ => true,
    }
}

/// Whether a document nests arrays and objects at most `depth` deep and holds
/// no number with a fraction or an exponent.
pub open spec fn fits(tree: Json, depth: nat) -> bool
    decreases depth,
{
    match tree {
        Json::Float(_) => false,
        Json::Array(items) => {
            &&& depth > 0
            &&& forall|i: int|
                0 <= i < items.len() ==> fits(#[trigger] items[i], (depth - 1) as nat)
        },
        Json::Object(fields) => {
            &&& depth > 0
            &&& forall|name: Seq<char>|
                fields.contains_key(name) ==> fits(#[trigger] fields[name], (depth - 1) as nat)
        },
        _ => true,
    }
}

/// An object of fraction-free members is fraction-free.
pub(crate) proof fn lemma_object_float_free(entries: Seq<(Seq<char>, Json)>)
    requires
        forall|i: int| 0 <= i < entries.len() ==> float_free((#[trigger] entries[i]).1),
    ensures
        float_free(object_of(entries)),
    decreases entries.len(),
{
    if entries.len() > 0 {
        lemma_object_float_free(entries.drop_last());
        assert(float_free(entries[entries.len() - 1].1));
        let fields = members(entries);
        let before = members(entries.drop_last());
        assert(float_free(Json::Object(before)));
        assert forall|name: Seq<char>| fields.contains_key(name) implies float_free(
            #[trigger] fields[name],
        ) by {
            if name != entries.last().0 {
                assert(before.contains_key(name));
                assert(float_free(before[name]));
            }
        }
    }
}

/// `str::eq` of std: two texts are equal when their characters are.
pub assume_specification[ <str as PartialEq>::eq ](left: &str, right: &str) -> (equal: bool)
    ensures
        equal == (left@ == right@),
;

/// `Value::as_str`: the text of a document that is one.
pub assume_specification[ Value::as_str ](value: &Value) -> (found: Option<&str>)
    ensures
        match found {
            Some(content) => json(*value) == Json::Text(content@),
            None => !(json(*value) is Text),
        },
;

/// `Value::as_array`: the items of a document that is an array, in order.
pub assume_specification[ Value::as_array ](value: &Value) -> (items: Option<&Vec<Value>>)
    ensures
        match items {
            Some(list) => json(*value) == Json::Array(json_items(list@)),
            None => !(json(*value) is Array),
        },
;

/// `Value::pointer`: what a JSON Pointer leads to. Of a pointer that holds an
/// escape, or that does not start with a slash, nothing is said.
pub assume_specification<'a>[ Value::pointer ](value: &'a Value, pointer: &str) -> (found: Option<&'a Value>)
    ensures
        forall|path: Seq<Seq<char>>| #[trigger]
            spells(pointer@, path) ==> match found {
                Some(inner) => at(json(*value), path) == Some(json(*inner)),
                None => at(json(*value), path) is None,
            },
;

/// `Value::eq`: against a document without fractions, two documents are equal
/// when their trees are. (Numbers with fractions compare as numbers, so that
/// both zeros are equal.)
pub assume_specification[ <Value as PartialEq>::eq ](left: &Value, right: &Value) -> (equal: bool)
    ensures
        float_free(json(*right)) ==> equal == (json(*left) == json(*right)),
;

/// `Value::clone`: a document with the same tree.
pub assume_specification[ <Value as Clone>::clone ](value: &Value) -> (copy: Value)
    ensures
        json(copy) == json(*value),
;

/// Calls `Value::get` with a name: the member of that name, if the document is
/// an object that has it.
#[verifier::external_body]
pub(crate) fn get<'a>(value: &'a Value, name: &str) -> (found: Option<&'a Value>)
    ensures
        match found {
            Some(inner) => member(json(*value), name@) == Some(json(*inner)),
            None => member(json(*value), name@) is None,
        },
{
    value.get(name)
}

/// Calls `serde_json::from_str`: the document that a text spells, or the
/// sentence that the error displays, as [`parsed`] names them.
#[verifier::external_body]
pub(crate) fn from_str(text: &str) -> (result: Result<Value, String>)
    ensures
        match result {
            Ok(value) => parsed(text@) == Ok::<Json, Seq<char>>(json(value)),
            Err(reason) => parsed(text@) == Err::<Json, Seq<char>>(reason@),
        },
{
    serde_json::from_str(text).map_err(|error: serde_json::Error| error.to_string())
}

/// Calls `serde_json::to_string`, which succeeds on every document: the compact
/// text, as [`serialized`] names it. Line feeds inside texts are escaped and
/// none is written between tokens, so it is a single line. A document without
/// fractions that nests at most 127 deep is read back from it unchanged.
#[verifier::external_body]
pub(crate) fn to_string(value: &Value) -> (result: Result<String, String>)
    ensures
        match result {
            Ok(line) => {
                &&& line@ == serialized(json(*value))
                &&& !line@.contains('\n')
                &&& fits(json(*value), 127) ==> parsed(line@) == Ok::<Json, Seq<char>>(json(*value))
            },
            Err(_) => false,
        },
{
    serde_json::to_string(value).map_err(|error: serde_json::Error| error.to_string())
}

/// Calls `Value::from` on a text.
#[verifier::external_body]
pub(crate) fn text_value(content: &str) -> (value: Value)
    ensures
        json(value) == Json::Text(content@),
{
    Value::from(content)
}

/// Calls `Value::from` on a truth value.
#[verifier::external_body]
pub(crate) fn bool_value(content: bool) -> (value: Value)
    ensures
        json(value) == Json::Bool(content),
{
    Value::from(content)
}

/// Calls `Value::from` on an integer.
#[verifier::external_body]
pub(crate) fn integer_value(content: i64) -> (value: Value)
    ensures
        json(value) == Json::Integer(content as int),
{
    Value::from(content)
}

/// Calls `Value::from` on a value that may be absent: null stands for none.
#[verifier::external_body]
pub(crate) fn optional_value(content: Option<Value>) -> (value: Value)
    ensures
        json(value) == match content {
            Some(present) => json(present),
            None => Json::Null,
        },
{
    Value::from(content)
}

/// Calls `Value::from` on a row of values.
#[verifier::external_body]
pub(crate) fn array_value(items: Vec<Value>) -> (value: Value)
    ensures
        json(value) == Json::Array(json_items(items@)),
{
    Value::from(items)
}

/// Calls `serde_json::Map::new`: no members.
#[verifier::external_body]
fn new_map() -> (fields: serde_json::Map<String, Value>)
    ensures
        json_members(fields) == members(Seq::empty()),
{
    serde_json::Map::new()
}

/// Calls `serde_json::Map::insert`: the member of that name has the value, in
/// place of the one that it had before, which is handed back.
#[verifier::external_body]
fn insert(
    fields: &mut serde_json::Map<String, Value>,
    name: String,
    value: Value,
) -> (replaced: Option<Value>)
    ensures
        json_members(*final(fields)) == json_members(*old(fields)).insert(name@, json(value)),
        optional_json(replaced) == member(Json::Object(json_members(*old(fields))), name@),
{
    fields.insert(name, value)
}

/// Calls `Value::from` on members: the object of them.
#[verifier::external_body]
fn object_value(fields: serde_json::Map<String, Value>) -> (value: Value)
    ensures
        json(value) == Json::Object(json_members(fields)),
{
    Value::from(fields)
}

/// An object under construction, with the entries that it is made of.
pub(crate) struct Members {
    fields: serde_json::Map<String, Value>,
    entries: Ghost<Seq<(Seq<char>, Json)>>,
}

impl Members {
    /// The entries so far.
    pub(crate) closed spec fn entries(self) -> Seq<(Seq<char>, Json)> {
        self.entries@
    }

    /// The members are those that the entries spell.
    pub(crate) closed spec fn wf(self) -> bool {
        json_members(self.fields) == members(self.entries@)
    }

    /// No entries.
    pub(crate) fn new() -> (object: Members)
        ensures
            object.wf(),
            object.entries() == Seq::<(Seq<char>, Json)>::empty(),
    {
        Members { fields: new_map(), entries: Ghost(Seq::empty()) }
    }

    /// One more entry.
    pub(crate) fn with(self, name: &str, value: Value) -> (object: Members)
        requires
            self.wf(),
        ensures
            object.wf(),
            object.entries() == self.entries().push((name@, json(value))),
    {
        let mut fields = self.fields;
        let ghost entry = (name@, json(value));
        insert(&mut fields, name.to_owned(), value);
        assert(self.entries@.push(entry).drop_last() =~= self.entries@);
        Members { fields, entries: Ghost(self.entries@.push(entry)) }
    }

    /// The object that the entries spell.
    pub(crate) fn build(self) -> (value: Value)
        requires
            self.wf(),
        ensures
            forall|entries: Seq<(Seq<char>, Json)>|
                entries =~= self.entries() ==> json(value) == #[trigger] object_of(entries),
    {
        object_value(self.fields)
    }
}

} // verus!
