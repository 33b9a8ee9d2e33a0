use vstd::prelude::*;

use crate::json::{decimal_value, member, parse_decimal, str_eq, JsonFields, JsonLeaf, JsonObject, JsonValue};
use crate::utils::CensusError;

verus! {

/// How a field of an event payload is read.
pub enum FieldKind {
    /// A JSON string, taken as it is.
    Text,
    /// An unsigned decimal numeral, as a JSON string or a JSON number, of at most this value.
    Unsigned(int),
    /// The JSON string `"0"` (false) or `"1"` (true).
    Flag,
}

/// The fields an event type reads, in the order it reads them.
pub type Layout = Seq<(Seq<char>, FieldKind)>;

pub open spec fn text_member(o: JsonFields, key: Seq<char>) -> Option<Seq<char>> {
    match member(o, key) {
        Some(JsonLeaf::Text(t)) => Some(t),
        _ => None,
    }
}

/// The value of an unsigned field that fits under `max`, given as a JSON
/// string or a JSON number.
pub open spec fn unsigned_member(o: JsonFields, key: Seq<char>, max: int) -> Option<int> {
    let numeral = match member(o, key) {
        Some(JsonLeaf::Text(t)) => Some(t),
        Some(JsonLeaf::Number(t)) => Some(t),
        _ => None,
    };
    match numeral {
        Some(t) => match decimal_value(t) {
            Some(v) => if v <= max {
                Some(v)
            } else {
                None
            },
            None => None,
        },
        None => None,
    }
}

pub open spec fn flag_member(o: JsonFields, key: Seq<char>) -> Option<bool> {
    match text_member(o, key) {
        Some(t) => if t == "1"@ {
            Some(true)
        } else if t == "0"@ {
            Some(false)
        } else {
            None
        },
        None => None,
    }
}

/// Whether the field `key` of `o` can be read as `kind`.
pub open spec fn field_ok(o: JsonFields, key: Seq<char>, kind: FieldKind) -> bool {
    match kind {
        FieldKind::Text => text_member(o, key) is Some,
        FieldKind::Unsigned(max) => unsigned_member(o, key, max) is Some,
        FieldKind::Flag => flag_member(o, key) is Some,
    }
}

/// The first field of `layout`, from position `i` on, that `o` does not hold
/// in readable form.
pub open spec fn first_bad_field(o: JsonFields, layout: Layout, i: int) -> Option<Seq<char>>
    decreases layout.len() - i,
{
    if i < 0 || i >= layout.len() {
        None
    } else if !field_ok(o, layout[i].0, layout[i].1) {
        Some(layout[i].0)
    } else {
        first_bad_field(o, layout, i + 1)
    }
}

/// The message of the error for a field that is absent or cannot be read.
pub open spec fn field_error_msg(key: Seq<char>) -> Seq<char> {
    "Malformed service message: could not parse field '"@ + key + "'"@
}

/// Whether `e` is the error for the field `key`.
pub open spec fn is_field_error(e: CensusError, key: Seq<char>) -> bool {
    e.err_msg@ == field_error_msg(key) && e.parent_err is None
}

fn field_error(key: &str) -> (e: CensusError)
    ensures
        is_field_error(e, key@),
{
    let mut msg = String::from_str("Malformed service message: could not parse field '");
    msg.append(key);
    msg.append("'");
    CensusError::new(msg)
}

/// Reads the string field `key`.
pub fn parse_string(key: &str, json: &JsonObject) -> (r: Result<String, CensusError>)
    ensures
        match r {
            Ok(v) => text_member(json@, key@) == Some(v@),
            Err(e) => text_member(json@, key@) is None && is_field_error(e, key@),
        },
{
    match json.get(key) {
        Some(JsonValue::Text(t)) => Ok(t.clone()),
        _ => Err(field_error(key)),
    }
}

/// Reads the unsigned field `key`, which must be at most `max`.
pub fn try_parse_to(key: &str, json: &JsonObject, max: u64) -> (r: Result<u64, CensusError>)
    ensures
        match r {
            Ok(v) => unsigned_member(json@, key@, max as int) == Some(v as int),
            Err(e) => unsigned_member(json@, key@, max as int) is None && is_field_error(e, key@),
        },
{
    let numeral = match json.get(key) {
        Some(JsonValue::Text(t)) => t.as_str(),
        Some(JsonValue::Number(t)) => t.as_str(),
        _ => {
            return Err(field_error(key));
        },
    };
    match parse_decimal(numeral, max) {
        Some(v) => Ok(v),
        None => Err(field_error(key)),
    }
}

/// Reads the field `key` given as the string `"0"` or `"1"`.
pub fn parse_bool_from_numstr(key: &str, json: &JsonObject) -> (r: Result<bool, CensusError>)
    ensures
        match r {
            Ok(v) => flag_member(json@, key@) == Some(v),
            Err(e) => flag_member(json@, key@) is None && is_field_error(e, key@),
        },
{
    match json.get(key) {
        Some(JsonValue::Text(t)) => {
            if str_eq(t.as_str(), "1") {
                Ok(true)
            } else if str_eq(t.as_str(), "0") {
                Ok(false)
            } else {
                Err(field_error(key))
            }
        },
        _ => Err(field_error(key)),
    }
}

pub fn parse_character_id(json: &JsonObject) -> (r: Result<String, CensusError>)
    ensures
        match r {
            Ok(v) => text_member(json@, "character_id"@) == Some(v@),
            Err(e) => text_member(json@, "character_id"@) is None && is_field_error(e, "character_id"@),
        },
{
    parse_string("character_id", json)
}

pub fn parse_timestamp(json: &JsonObject) -> (r: Result<String, CensusError>)
    ensures
        match r {
            Ok(v) => text_member(json@, "timestamp"@) == Some(v@),
            Err(e) => text_member(json@, "timestamp"@) is None && is_field_error(e, "timestamp"@),
        },
{
    parse_string("timestamp", json)
}

/// Reads `world_id`, which must fit in 8 bits.
pub fn parse_world_id(json: &JsonObject) -> (r: Result<u8, CensusError>)
    ensures
        match r {
            Ok(v) => unsigned_member(json@, "world_id"@, 0xff) == Some(v as int),
            Err(e) => unsigned_member(json@, "world_id"@, 0xff) is None && is_field_error(e, "world_id"@),
        },
{
    match try_parse_to("world_id", json, 0xff) {
        Ok(v) => Ok(v as u8),
        Err(e) => Err(e),
    }
}

/// Reads `zone_id`, which must fit in 32 bits.
pub fn parse_zone_id(json: &JsonObject) -> (r: Result<u32, CensusError>)
    ensures
        match r {
            Ok(v) => unsigned_member(json@, "zone_id"@, 0xffff_ffff) == Some(v as int),
            Err(e) => unsigned_member(json@, "zone_id"@, 0xffff_ffff) is None && is_field_error(e, "zone_id"@),
        },
{
    match try_parse_to("zone_id", json, 0xffff_ffff) {
        Ok(v) => Ok(v as u32),
        Err(e) => Err(e),
    }
}

} // verus!
