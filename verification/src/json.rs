//! The library's own JSON value shape, and the lenient field accessors the
//! feed decoder builds on.
//!
//! The remote system omits or nulls fields inconsistently across record
//! states, so absence and an explicit null must decode alike: `lookup`
//! returns `Null` for a missing key, and every typed accessor maps `Null`
//! to the field's documented default.  Numbers are carried as the text the
//! parser rendered for them, so fractional values pass through unscathed.

use vstd::prelude::*;
use vstd::string::*;

use crate::errors::ApiError;
use crate::text::all_digits;
use crate::text::dec_val;
use crate::text::parse_u32;
use crate::text::parse_u64;

verus! {

/// A parsed JSON tree.
#[derive(Debug)]
pub enum JsonValue {
    Null,
    Bool(bool),
    /// A number, as the text the parser renders for it.
    Num(String),
    Text(String),
    Arr(Vec<JsonValue>),
    /// An object's key/value pairs, as the parser hands them over (the
    /// outside parser's map is key-sorted); `lookup` takes the first
    /// occurrence of a key, and no contract depends on the order.
    Obj(Vec<(String, JsonValue)>),
}

/// The value under a key, with absence and explicit null identified:
/// a missing key reads as `Null`.  The first occurrence of a key wins.
pub open spec fn lookup(fields: Seq<(String, JsonValue)>, key: Seq<char>) -> JsonValue
    decreases fields.len(),
{
    if fields.len() == 0 {
        JsonValue::Null
    } else if fields[0].0@ == key {
        fields[0].1
    } else {
        lookup(fields.drop_first(), key)
    }
}

/// A key that occurs nowhere in an object reads as `Null`: decoding treats
/// a missing optional field and an explicit null identically.
pub proof fn lemma_missing_field_is_null(fields: Seq<(String, JsonValue)>, key: Seq<char>)
    requires
        forall|k: int| 0 <= k < fields.len() ==> (#[trigger] fields[k].0)@ != key,
    ensures
        lookup(fields, key) == JsonValue::Null,
    decreases fields.len(),
{
    if fields.len() > 0 {
        lemma_missing_field_is_null(fields.drop_first(), key);
    }
}

/// Finds a key's value in an object; `None` when the key is absent (which
/// `lookup` reads as `Null`).
pub(crate) fn find_field<'a>(fields: &'a Vec<(String, JsonValue)>, key: &str) -> (r: Option<&'a JsonValue>)
    ensures
        match r {
            Some(v) => *v == lookup(fields@, key@),
            None => lookup(fields@, key@) == JsonValue::Null,
        },
{
    let key_string = String::from_str(key);
    let mut i: usize = 0;
    proof {
        assert(fields@.subrange(0, fields@.len() as int) =~= fields@);
    }
    while i < fields.len()
        invariant
            0 <= i <= fields@.len(),
            key_string@ == key@,
            lookup(fields@, key@) == lookup(fields@.subrange(i as int, fields@.len() as int), key@),
        decreases fields@.len() - i,
    {
        proof {
            assert(fields@.subrange(i as int, fields@.len() as int).drop_first() =~= fields@
                .subrange(i + 1, fields@.len() as int));
        }
        if fields[i].0 == key_string {
            return Some(&fields[i].1);
        }
        i += 1;
    }
    proof {
        lemma_missing_field_is_null(fields@.subrange(i as int, fields@.len() as int), key@);
    }
    None
}

// ---------------------------------------------------------------------
// Typed accessors: the decode policy, field kind by field kind
// ---------------------------------------------------------------------

/// Whether a plain text field is acceptably typed: text, or null/missing.
pub open spec fn jstr_ok(fields: Seq<(String, JsonValue)>, key: Seq<char>) -> bool {
    lookup(fields, key) matches JsonValue::Text(_) || lookup(fields, key) is Null
}

/// A plain text field's value; empty when null or missing.
pub open spec fn jstr(fields: Seq<(String, JsonValue)>, key: Seq<char>) -> Seq<char> {
    match lookup(fields, key) {
        JsonValue::Text(s) => s@,
        _ => Seq::<char>::empty(),
    }
}

/// Whether a flag field is acceptably typed: boolean, or null/missing.
pub open spec fn jbool_ok(fields: Seq<(String, JsonValue)>, key: Seq<char>) -> bool {
    lookup(fields, key) matches JsonValue::Bool(_) || lookup(fields, key) is Null
}

/// A flag field's value; false when null or missing.
pub open spec fn jbool(fields: Seq<(String, JsonValue)>, key: Seq<char>) -> bool {
    match lookup(fields, key) {
        JsonValue::Bool(b) => b,
        _ => false,
    }
}

/// Whether a number's text denotes an unsigned value within `max`.
pub open spec fn num_text_ok(s: Seq<char>, max: nat) -> bool {
    s.len() >= 1 && all_digits(s) && dec_val(s) <= max
}

/// Whether a 64-bit count field is acceptably typed: a whole number in
/// range, or null/missing.
pub open spec fn ju64_ok(fields: Seq<(String, JsonValue)>, key: Seq<char>) -> bool {
    match lookup(fields, key) {
        JsonValue::Num(s) => num_text_ok(s@, u64::MAX as nat),
        JsonValue::Null => true,
        _ => false,
    }
}

/// A 64-bit count field's value; zero when null or missing.
pub open spec fn ju64(fields: Seq<(String, JsonValue)>, key: Seq<char>) -> u64 {
    match lookup(fields, key) {
        JsonValue::Num(s) => dec_val(s@) as u64,
        _ => 0,
    }
}

/// Whether a 32-bit count field is acceptably typed.
pub open spec fn ju32_ok(fields: Seq<(String, JsonValue)>, key: Seq<char>) -> bool {
    match lookup(fields, key) {
        JsonValue::Num(s) => num_text_ok(s@, u32::MAX as nat),
        JsonValue::Null => true,
        _ => false,
    }
}

/// A 32-bit count field's value; zero when null or missing.
pub open spec fn ju32(fields: Seq<(String, JsonValue)>, key: Seq<char>) -> u32 {
    match lookup(fields, key) {
        JsonValue::Num(s) => dec_val(s@) as u32,
        _ => 0,
    }
}

/// Whether a required 32-bit field is present and well typed: the feed's
/// envelope counters carry no default, so null or missing is a schema
/// mismatch there.
pub open spec fn ju32_strict_ok(fields: Seq<(String, JsonValue)>, key: Seq<char>) -> bool {
    match lookup(fields, key) {
        JsonValue::Num(s) => num_text_ok(s@, u32::MAX as nat),
        _ => false,
    }
}

/// Whether an optional count field is acceptably typed.
pub open spec fn jopt_u32_ok(fields: Seq<(String, JsonValue)>, key: Seq<char>) -> bool {
    match lookup(fields, key) {
        JsonValue::Num(s) => num_text_ok(s@, u32::MAX as nat),
        JsonValue::Null => true,
        _ => false,
    }
}

/// An optional count field's value; `None` when null or missing.
pub open spec fn jopt_u32(fields: Seq<(String, JsonValue)>, key: Seq<char>) -> Option<u32> {
    match lookup(fields, key) {
        JsonValue::Num(s) => Some(dec_val(s@) as u32),
        _ => None,
    }
}

/// Whether an optional text field is acceptably typed.
pub open spec fn jopt_text_ok(fields: Seq<(String, JsonValue)>, key: Seq<char>) -> bool {
    lookup(fields, key) matches JsonValue::Text(_) || lookup(fields, key) is Null
}

/// An optional text field's value; `None` when null or missing.
pub open spec fn jopt_text(fields: Seq<(String, JsonValue)>, key: Seq<char>) -> Option<Seq<char>> {
    match lookup(fields, key) {
        JsonValue::Text(s) => Some(s@),
        _ => None,
    }
}

/// Whether an optional numeric field (kept as text) is acceptably typed.
pub open spec fn jnum_text_ok(fields: Seq<(String, JsonValue)>, key: Seq<char>) -> bool {
    lookup(fields, key) matches JsonValue::Num(_) || lookup(fields, key) is Null
}

/// An optional numeric field's rendering; `None` when null or missing.
pub open spec fn jnum_text(fields: Seq<(String, JsonValue)>, key: Seq<char>) -> Option<Seq<char>> {
    match lookup(fields, key) {
        JsonValue::Num(s) => Some(s@),
        _ => None,
    }
}

/// A null (or missing) field decodes to its documented default, with no
/// error, whatever the field's kind.
pub proof fn lemma_null_field_defaults(fields: Seq<(String, JsonValue)>, key: Seq<char>)
    requires
        lookup(fields, key) == JsonValue::Null,
    ensures
        jstr_ok(fields, key) && jstr(fields, key) == Seq::<char>::empty(),
        jbool_ok(fields, key) && jbool(fields, key) == false,
        ju64_ok(fields, key) && ju64(fields, key) == 0,
        ju32_ok(fields, key) && ju32(fields, key) == 0,
        jopt_u32_ok(fields, key) && jopt_u32(fields, key) is None,
        jopt_text_ok(fields, key) && jopt_text(fields, key) is None,
        jnum_text_ok(fields, key) && jnum_text(fields, key) is None,
{
}

pub(crate) fn get_str_field(fields: &Vec<(String, JsonValue)>, key: &str) -> (r: Result<
    String,
    ApiError,
>)
    ensures
        r is Ok <==> jstr_ok(fields@, key@),
        r matches Ok(s) ==> s@ == jstr(fields@, key@),
        r matches Err(e) ==> e == ApiError::Schema,
{
    match find_field(fields, key) {
        Some(JsonValue::Text(s)) => Ok(s.clone()),
        Some(JsonValue::Null) => Ok(String::new()),
        Some(_) => Err(ApiError::Schema),
        None => Ok(String::new()),
    }
}

pub(crate) fn get_bool_field(fields: &Vec<(String, JsonValue)>, key: &str) -> (r: Result<
    bool,
    ApiError,
>)
    ensures
        r is Ok <==> jbool_ok(fields@, key@),
        r matches Ok(b) ==> b == jbool(fields@, key@),
        r matches Err(e) ==> e == ApiError::Schema,
{
    match find_field(fields, key) {
        Some(JsonValue::Bool(b)) => Ok(*b),
        Some(JsonValue::Null) => Ok(false),
        Some(_) => Err(ApiError::Schema),
        None => Ok(false),
    }
}

pub(crate) fn get_u64_field(fields: &Vec<(String, JsonValue)>, key: &str) -> (r: Result<
    u64,
    ApiError,
>)
    ensures
        r is Ok <==> ju64_ok(fields@, key@),
        r matches Ok(n) ==> n == ju64(fields@, key@),
        r matches Err(e) ==> e == ApiError::Schema,
{
    match find_field(fields, key) {
        Some(JsonValue::Num(s)) => match parse_u64(s.as_str()) {
            Some(n) => Ok(n),
            None => Err(ApiError::Schema),
        },
        Some(JsonValue::Null) => Ok(0),
        Some(_) => Err(ApiError::Schema),
        None => Ok(0),
    }
}

pub(crate) fn get_u32_field(fields: &Vec<(String, JsonValue)>, key: &str) -> (r: Result<
    u32,
    ApiError,
>)
    ensures
        r is Ok <==> ju32_ok(fields@, key@),
        r matches Ok(n) ==> n == ju32(fields@, key@),
        r matches Err(e) ==> e == ApiError::Schema,
{
    match find_field(fields, key) {
        Some(JsonValue::Num(s)) => match parse_u32(s.as_str()) {
            Some(n) => Ok(n),
            None => Err(ApiError::Schema),
        },
        Some(JsonValue::Null) => Ok(0),
        Some(_) => Err(ApiError::Schema),
        None => Ok(0),
    }
}

pub(crate) fn get_u32_strict(fields: &Vec<(String, JsonValue)>, key: &str) -> (r: Result<
    u32,
    ApiError,
>)
    ensures
        r is Ok <==> ju32_strict_ok(fields@, key@),
        r matches Ok(n) ==> n == ju32(fields@, key@),
        r matches Err(e) ==> e == ApiError::Schema,
{
    match find_field(fields, key) {
        Some(JsonValue::Num(s)) => match parse_u32(s.as_str()) {
            Some(n) => Ok(n),
            None => Err(ApiError::Schema),
        },
        _ => Err(ApiError::Schema),
    }
}

pub(crate) fn get_opt_u32_field(fields: &Vec<(String, JsonValue)>, key: &str) -> (r: Result<
    Option<u32>,
    ApiError,
>)
    ensures
        r is Ok <==> jopt_u32_ok(fields@, key@),
        r matches Ok(o) ==> o == jopt_u32(fields@, key@),
        r matches Err(e) ==> e == ApiError::Schema,
{
    match find_field(fields, key) {
        Some(JsonValue::Num(s)) => match parse_u32(s.as_str()) {
            Some(n) => Ok(Some(n)),
            None => Err(ApiError::Schema),
        },
        Some(JsonValue::Null) => Ok(None),
        Some(_) => Err(ApiError::Schema),
        None => Ok(None),
    }
}

pub(crate) fn get_opt_str_field(fields: &Vec<(String, JsonValue)>, key: &str) -> (r: Result<
    Option<String>,
    ApiError,
>)
    ensures
        r is Ok <==> jopt_text_ok(fields@, key@),
        r matches Ok(o) ==> crate::batch::opt_str_view(o) == jopt_text(fields@, key@),
        r matches Err(e) ==> e == ApiError::Schema,
{
    match find_field(fields, key) {
        Some(JsonValue::Text(s)) => Ok(Some(s.clone())),
        Some(JsonValue::Null) => Ok(None),
        Some(_) => Err(ApiError::Schema),
        None => Ok(None),
    }
}

pub(crate) fn get_num_text_field(fields: &Vec<(String, JsonValue)>, key: &str) -> (r: Result<
    Option<String>,
    ApiError,
>)
    ensures
        r is Ok <==> jnum_text_ok(fields@, key@),
        r matches Ok(o) ==> crate::batch::opt_str_view(o) == jnum_text(fields@, key@),
        r matches Err(e) ==> e == ApiError::Schema,
{
    match find_field(fields, key) {
        Some(JsonValue::Num(s)) => Ok(Some(s.clone())),
        Some(JsonValue::Null) => Ok(None),
        Some(_) => Err(ApiError::Schema),
        None => Ok(None),
    }
}

// ---------------------------------------------------------------------
// Parsing, through the outside JSON parser
// ---------------------------------------------------------------------

#[verifier::external_type_specification]
#[verifier::external_body]
pub struct ExSerdeValue(serde_json::Value);

/// What the outside JSON parser yields for a text: `None` for invalid
/// JSON, else the parsed tree in the library's value shape.
pub uninterp spec fn json_parse(text: Seq<char>) -> Option<JsonValue>;

/// Relies on serde_json::Value's variant accessors: converts a parsed tree
/// into the library's own shape, one arm per variant, moving values only;
/// a number becomes the text serde_json renders for it.  Converts children
/// by calling itself.
#[verifier::external_body]
fn value_to_json(v: &serde_json::Value) -> JsonValue {
    match v {
        serde_json::Value::Null => JsonValue::Null,
        serde_json::Value::Bool(b) => JsonValue::Bool(*b),
        serde_json::Value::Number(n) => JsonValue::Num(n.to_string()),
        serde_json::Value::String(s) => JsonValue::Text(s.clone()),
        serde_json::Value::Array(a) => JsonValue::Arr(a.iter().map(value_to_json).collect()),
        serde_json::Value::Object(m) => JsonValue::Obj(
            m.iter().map(|(k, w)| (k.clone(), value_to_json(w))).collect(),
        ),
    }
}

/// Relies on serde_json::from_str: parses a feed body; `None` when the
/// text cannot be parsed (invalid JSON, or nesting beyond the parser's
/// own limit).  The result depends on the text alone.
#[verifier::external_body]
pub fn parse_json(text: &str) -> (r: Option<JsonValue>)
    ensures
        r == json_parse(text@),
{
    match serde_json::from_str::<serde_json::Value>(text) {
        Ok(v) => Some(value_to_json(&v)),
        Err(_) => None,
    }
}

} // verus!
