use vstd::prelude::*;

use crate::json::{decimal_value, parse_decimal, str_eq, JsonLeaf, JsonValue};

verus! {

/// std's `SystemTime`, carried through as an opaque value.
#[verifier::external_type_specification]
#[verifier::external_body]
pub struct ExSystemTime(std::time::SystemTime);

/// Relies on `std::time::SystemTime::now`: the current time, of which nothing
/// is assumed.
#[verifier::external_body]
fn now() -> std::time::SystemTime {
    std::time::SystemTime::now()
}

/// The lower-case form of a string, as `str::to_lowercase` gives it.
pub uninterp spec fn lower_of(s: Seq<char>) -> Seq<char>;

/// Relies on `str::to_lowercase`: the result depends on the characters alone.
#[verifier::external_body]
fn lowercase(s: &str) -> (r: String)
    ensures
        r@ == lower_of(s@),
{
    s.to_lowercase()
}

/// A field of a record fetched from the service: empty until a value is read,
/// then the value and when it was read.
#[derive(Clone, Debug)]
pub struct CensusValue<T: Clone> {
    pub last_updated: Option<std::time::SystemTime>,
    pub value: Option<T>,
}

/// A JSON value read as text.
pub open spec fn text_reading(j: JsonLeaf) -> Option<Seq<char>> {
    match j {
        JsonLeaf::Text(t) => Some(t),
        _ => None,
    }
}

/// A JSON number or string read as an unsigned integer of at most `max`.
pub open spec fn unsigned_reading(j: JsonLeaf, max: int) -> Option<int> {
    let numeral = match j {
        JsonLeaf::Number(t) => Some(t),
        JsonLeaf::Text(t) => Some(t),
        _ => None,
    };
    match numeral {
        Some(t) => match decimal_value(t) {
            Some(v) => if v <= max {
                Some(v)
            } else {
                None
            },
            None => None,
        },
        None => None,
    }
}

/// The truth value a lower-cased string names, if any.
pub open spec fn bool_word(lowered: Seq<char>) -> Option<bool> {
    if lowered == "true"@ || lowered == "1"@ {
        Some(true)
    } else if lowered == "false"@ || lowered == "0"@ {
        Some(false)
    } else {
        None
    }
}

/// A JSON value read as a truth value: a boolean, the number 0 or 1, or a
/// string that reads `true`, `false`, `1` or `0` once lower-cased.
pub open spec fn flag_reading(j: JsonLeaf) -> Option<bool> {
    match j {
        JsonLeaf::Bool(b) => Some(b),
        JsonLeaf::Number(n) => if n == "1"@ {
            Some(true)
        } else if n == "0"@ {
            Some(false)
        } else {
            None
        },
        JsonLeaf::Text(t) => bool_word(lower_of(t)),
        _ => None,
    }
}

/// Whether `new` is the text field `old` after reading `j`: the text where `j`
/// is a string, with a time; `old` itself otherwise.
pub open spec fn text_updated(old: CensusValue<String>, new: CensusValue<String>, j: JsonLeaf) -> bool {
    match text_reading(j) {
        Some(t) => new.value matches Some(v) && v@ == t && new.last_updated is Some,
        None => new == old,
    }
}

/// Whether `new` is the byte field `old` after reading `j`.
pub open spec fn byte_updated(old: CensusValue<u8>, new: CensusValue<u8>, j: JsonLeaf) -> bool {
    match unsigned_reading(j, 0xff) {
        Some(v) => new.value == Some(v as u8) && new.last_updated is Some,
        None => new == old,
    }
}

/// Whether `new` is the counter field `old` after reading `j`.
pub open spec fn count_updated(old: CensusValue<u64>, new: CensusValue<u64>, j: JsonLeaf) -> bool {
    match unsigned_reading(j, u64::MAX as int) {
        Some(v) => new.value == Some(v as u64) && new.last_updated is Some,
        None => new == old,
    }
}

/// Whether `new` is the flag field `old` after reading `j`.
pub open spec fn flag_updated(old: CensusValue<bool>, new: CensusValue<bool>, j: JsonLeaf) -> bool {
    match flag_reading(j) {
        Some(b) => new.value == Some(b) && new.last_updated is Some,
        None => new == old,
    }
}

/// The truth value a lower-cased string names.
pub fn bool_from_lowered(lowered: &str) -> (r: Option<bool>)
    ensures
        r == bool_word(lowered@),
{
    if str_eq(lowered, "true") || str_eq(lowered, "1") {
        Some(true)
    } else if str_eq(lowered, "false") || str_eq(lowered, "0") {
        Some(false)
    } else {
        None
    }
}

impl<T: Clone> CensusValue<T> {
    /// Whether nothing has been read into the field.
    pub open spec fn is_empty(&self) -> bool {
        self.value is None && self.last_updated is None
    }

    pub fn new_empty() -> (r: CensusValue<T>)
        ensures
            r.value is None,
            r.last_updated is None,
    {
        CensusValue { last_updated: None, value: None }
    }

    /// A field holding `value`, read now.
    pub fn new_value(value: T) -> (r: CensusValue<T>)
        ensures
            r.value == Some(value),
            r.last_updated is Some,
    {
        CensusValue { value: Some(value), last_updated: Some(now()) }
    }

    fn set(&mut self, value: T)
        ensures
            final(self).value == Some(value),
            final(self).last_updated is Some,
    {
        self.value = Some(value);
        self.last_updated = Some(now());
    }
}

impl CensusValue<String> {
    /// A text field read from `json`; empty where `json` is no string.
    pub fn from_json(json: &JsonValue) -> (r: CensusValue<String>)
        ensures
            match text_reading(json@) {
                Some(t) => r.value matches Some(v) && v@ == t && r.last_updated is Some,
                None => r.value is None && r.last_updated is None,
            },
    {
        let mut val = Self::new_empty();
        val.update(json);
        val
    }

    /// Reads a string into the field. Returns whether it did; where it did not,
    /// the field is unchanged.
    pub fn update(&mut self, json: &JsonValue) -> (r: bool)
        ensures
            r == text_reading(json@) is Some,
            text_updated(*old(self), *final(self), json@),
    {
        match json {
            JsonValue::Text(t) => {
                self.set(t.clone());
                true
            },
            _ => false,
        }
    }
}

impl CensusValue<u8> {
    /// A byte field read from `json`; empty where `json` holds no such number.
    pub fn from_json(json: &JsonValue) -> (r: CensusValue<u8>)
        ensures
            match unsigned_reading(json@, 0xff) {
                Some(v) => r.value == Some(v as u8) && r.last_updated is Some,
                None => r.value is None && r.last_updated is None,
            },
    {
        let mut val = Self::new_empty();
        val.update(json);
        val
    }

    /// Reads a number of at most 255, given as a JSON number or a string,
    /// into the field. Returns whether it did; where it did not, the field is
    /// unchanged.
    pub fn update(&mut self, json: &JsonValue) -> (r: bool)
        ensures
            r == unsigned_reading(json@, 0xff) is Some,
            byte_updated(*old(self), *final(self), json@),
    {
        let numeral = match json {
            JsonValue::Number(n) => n.as_str(),
            JsonValue::Text(t) => t.as_str(),
            _ => {
                return false;
            },
        };
        match parse_decimal(numeral, 0xff) {
            Some(v) => {
                self.set(v as u8);
                true
            },
            None => false,
        }
    }
}

impl CensusValue<u64> {
    /// A counter field read from `json`; empty where `json` holds no such number.
    pub fn from_json(json: &JsonValue) -> (r: CensusValue<u64>)
        ensures
            match unsigned_reading(json@, u64::MAX as int) {
                Some(v) => r.value == Some(v as u64) && r.last_updated is Some,
                None => r.value is None && r.last_updated is None,
            },
    {
        let mut val = Self::new_empty();
        val.update(json);
        val
    }

    /// Reads an unsigned 64-bit number, given as a JSON number or a string,
    /// into the field. Returns whether it did; where it did not, the field is
    /// unchanged.
    pub fn update(&mut self, json: &JsonValue) -> (r: bool)
        ensures
            r == unsigned_reading(json@, u64::MAX as int) is Some,
            count_updated(*old(self), *final(self), json@),
    {
        let numeral = match json {
            JsonValue::Number(n) => n.as_str(),
            JsonValue::Text(t) => t.as_str(),
            _ => {
                return false;
            },
        };
        match parse_decimal(numeral, u64::MAX) {
            Some(v) => {
                self.set(v);
                true
            },
            None => false,
        }
    }
}

impl CensusValue<bool> {
    /// A flag field read from `json`; empty where `json` names no truth value.
    pub fn from_json(json: &JsonValue) -> (r: CensusValue<bool>)
        ensures
            match flag_reading(json@) {
                Some(b) => r.value == Some(b) && r.last_updated is Some,
                None => r.value is None && r.last_updated is None,
            },
    {
        let mut val = Self::new_empty();
        val.update(json);
        val
    }

    /// Reads a truth value into the field: a JSON boolean, the number 0 or
    /// 1, or the string `true`, `false`, `1` or `0` in any case. Returns
    /// whether it did; where it did not, the field is unchanged.
    pub fn update(&mut self, json: &JsonValue) -> (r: bool)
        ensures
            r == flag_reading(json@) is Some,
            flag_updated(*old(self), *final(self), json@),
    {
        let read = match json {
            JsonValue::Bool(b) => Some(*b),
            JsonValue::Number(n) => {
                if str_eq(n.as_str(), "1") {
                    Some(true)
                } else if str_eq(n.as_str(), "0") {
                    Some(false)
                } else {
                    None
                }
            },
            JsonValue::Text(t) => {
                let lowered = lowercase(t.as_str());
                bool_from_lowered(lowered.as_str())
            },
            _ => None,
        };
        match read {
            Some(b) => {
                self.set(b);
                true
            },
            None => false,
        }
    }
}

} // verus!
