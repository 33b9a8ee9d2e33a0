use serde_json::Value;
use vstd::prelude::*;

verus! {

/// A member value of a JSON object as this library reads it: scalars as plain
/// values, arrays and objects as their compact JSON text.
#[derive(Debug, Clone)]
pub enum JsonValue {
    Null,
    Bool(bool),
    /// The number's decimal text.
    Number(String),
    Text(String),
    Array(String),
    Object(String),
}

/// The mathematical value of a [`JsonValue`].
pub enum JsonLeaf {
    Null,
    Bool(bool),
    Number(Seq<char>),
    Text(Seq<char>),
    Array(Seq<char>),
    Object(Seq<char>),
}

impl View for JsonValue {
    type V = JsonLeaf;

    open spec fn view(&self) -> JsonLeaf {
        match self {
            JsonValue::Null => JsonLeaf::Null,
            JsonValue::Bool(b) => JsonLeaf::Bool(*b),
            JsonValue::Number(n) => JsonLeaf::Number(n@),
            JsonValue::Text(t) => JsonLeaf::Text(t@),
            JsonValue::Array(a) => JsonLeaf::Array(a@),
            JsonValue::Object(o) => JsonLeaf::Object(o@),
        }
    }
}

/// The members of a JSON object, each key with its value.
pub type JsonFields = Seq<(Seq<char>, JsonLeaf)>;

/// A JSON object: its members in order.
#[derive(Debug, Clone)]
pub struct JsonObject {
    pub members: Vec<(String, JsonValue)>,
}

impl View for JsonObject {
    type V = JsonFields;

    open spec fn view(&self) -> JsonFields {
        self.members@.map_values(|m: (String, JsonValue)| (m.0@, m.1@))
    }
}

/// The value of the first member named `key`, if there is one.
pub open spec fn member(o: JsonFields, key: Seq<char>) -> Option<JsonLeaf>
    decreases o.len(),
{
    if o.len() == 0 {
        None
    } else if o[0].0 == key {
        Some(o[0].1)
    } else {
        member(o.drop_first(), key)
    }
}

proof fn lemma_member_skip(o: JsonFields, i: int, key: Seq<char>)
    requires
        0 <= i < o.len(),
        o[i].0 != key,
    ensures
        member(o.subrange(i, o.len() as int), key) == member(o.subrange(i + 1, o.len() as int), key),
{
    assert(o.subrange(i, o.len() as int).drop_first() =~= o.subrange(i + 1, o.len() as int));
}

/// Pulls in the members as parsed from JSON text by serde_json.
pub uninterp spec fn json_object_fields(text: Seq<char>) -> Option<JsonFields>;

/// Relies on `serde_json::from_str` into a `serde_json::Map`, which parses
/// `text` as one JSON object (the text `null` reads as the empty object), and
/// on serde_json's compact `Display` of numbers, arrays and objects.
#[verifier::external_body]
pub fn parse_json_object(text: &str) -> (r: Result<JsonObject, String>)
    ensures
        match r {
            Ok(o) => json_object_fields(text@) == Some(o@),
            Err(_) => json_object_fields(text@) is None,
        },
{
    let m = serde_json::from_str::<serde_json::Map<String, Value>>(text).map_err(|e| e.to_string())?;
    Ok(JsonObject { members: m.into_iter().map(|(k, v)| (k, match v {
        Value::Null => JsonValue::Null,
        Value::Bool(b) => JsonValue::Bool(b),
        Value::Number(n) => JsonValue::Number(n.to_string()),
        Value::String(s) => JsonValue::Text(s),
        Value::Array(_) => JsonValue::Array(v.to_string()),
        Value::Object(_) => JsonValue::Object(v.to_string()),
    })).collect() })
}

impl JsonObject {
    /// The value of the first member named `key`.
    pub fn get(&self, key: &str) -> (r: Option<&JsonValue>)
        ensures
            match r {
                Some(v) => member(self@, key@) == Some(v@),
                None => member(self@, key@) is None,
            },
    {
        let n = self.members.len();
        let mut i: usize = 0;
        assert(self@.subrange(0, n as int) =~= self@);
        while i < n
            invariant
                n == self.members@.len(),
                i <= n,
                member(self@, key@) == member(self@.subrange(i as int, n as int), key@),
            decreases n - i,
        {
            let m = &self.members[i];
            if str_eq(m.0.as_str(), key) {
                assert(self@.subrange(i as int, n as int)[0] == self@[i as int]);
                return Some(&m.1);
            }
            proof {
                lemma_member_skip(self@, i as int, key@);
            }
            i = i + 1;
        }
        assert(self@.subrange(n as int, n as int).len() == 0);
        None
    }
}

/// Whether two strings hold the same characters.
pub fn str_eq(a: &str, b: &str) -> (r: bool)
    ensures
        r == (a@ == b@),
{
    let n = a.unicode_len();
    if n != b.unicode_len() {
        return false;
    }
    let mut i: usize = 0;
    while i < n
        invariant
            n == a@.len(),
            n == b@.len(),
            i <= n,
            forall|j: int| 0 <= j < i ==> a@[j] == b@[j],
        decreases n - i,
    {
        if a.get_char(i) != b.get_char(i) {
            return false;
        }
        i = i + 1;
    }
    assert(a@ =~= b@);
    true
}

/// Whether `c` is an ASCII decimal digit.
pub open spec fn is_digit(c: char) -> bool {
    '0' <= c <= '9'
}

/// The value of a decimal digit.
pub open spec fn digit_value(c: char) -> int {
    c as int - '0' as int
}

/// The value of a string of decimal digits, most significant first.
pub open spec fn digits_value(s: Seq<char>) -> int
    decreases s.len(),
{
    if s.len() == 0 {
        0
    } else {
        digits_value(s.drop_last()) * 10 + digit_value(s.last())
    }
}

/// The digits of a decimal numeral, without its optional leading `+`.
pub open spec fn unsigned_digits(s: Seq<char>) -> Seq<char> {
    if s.len() > 0 && s[0] == '+' {
        s.drop_first()
    } else {
        s
    }
}

/// The value of an unsigned decimal numeral (an optional `+`, then one or more
/// digits), or `None` where `s` is no such numeral.
pub open spec fn decimal_value(s: Seq<char>) -> Option<int> {
    let d = unsigned_digits(s);
    if d.len() > 0 && forall|i: int| 0 <= i < d.len() ==> is_digit(#[trigger] d[i]) {
        Some(digits_value(d))
    } else {
        None
    }
}

proof fn lemma_digits_value_prefix(s: Seq<char>, k: int)
    requires
        0 <= k <= s.len(),
        forall|i: int| 0 <= i < s.len() ==> is_digit(#[trigger] s[i]),
    ensures
        digits_value(s.subrange(0, k)) <= digits_value(s),
        0 <= digits_value(s),
    decreases s.len(),
{
    if s.len() == 0 {
        assert(s.subrange(0, k) =~= s);
    } else if k == s.len() {
        assert(s.subrange(0, k) =~= s);
        lemma_digits_value_prefix(s.drop_last(), k - 1);
    } else {
        let t = s.drop_last();
        assert forall|i: int| 0 <= i < t.len() implies is_digit(#[trigger] t[i]) by {
            assert(t[i] == s[i]);
        }
        lemma_digits_value_prefix(t, k);
        assert(t.subrange(0, k) =~= s.subrange(0, k));
        assert(is_digit(s[s.len() - 1]));
    }
}

/// Reads an unsigned decimal numeral whose value is at most `max`, as
/// `str::parse` reads one into an unsigned integer type of that maximum.
pub fn parse_decimal(s: &str, max: u64) -> (r: Option<u64>)
    ensures
        match r {
            Some(v) => decimal_value(s@) == Some(v as int) && v <= max,
            None => decimal_value(s@) is None || decimal_value(s@).unwrap() > max,
        },
{
    let n = s.unicode_len();
    let mut start: usize = 0;
    if n > 0 && s.get_char(0) == '+' {
        start = 1;
    }
    let ghost d = unsigned_digits(s@);
    assert(d =~= s@.subrange(start as int, n as int));
    if start >= n {
        return None;
    }
    let mut acc: u64 = 0;
    let mut i: usize = start;
    assert(d.subrange(0, 0).len() == 0);
    while i < n
        invariant
            n == s@.len(),
            start <= i <= n,
            d == s@.subrange(start as int, n as int),
            d == unsigned_digits(s@),
            forall|j: int| 0 <= j < i - start ==> is_digit(#[trigger] d[j]),
            acc == digits_value(d.subrange(0, i - start)),
            acc <= max,
        decreases n - i,
    {
        let c = s.get_char(i);
        let ghost k = (i - start) as int;
        if !('0' <= c && c <= '9') {
            assert(!is_digit(d[k]));
            assert(!(forall|j: int| 0 <= j < d.len() ==> is_digit(#[trigger] d[j])));
            assert(decimal_value(s@) is None);
            return None;
        }
        let dv = (c as u32 - '0' as u32) as u64;
        assert(d.subrange(0, k + 1).drop_last() =~= d.subrange(0, k));
        assert(digits_value(d.subrange(0, k + 1)) == acc * 10 + dv);
        if dv > max || acc > (max - dv) / 10 {
            proof {
                if forall|j: int| 0 <= j < d.len() ==> is_digit(#[trigger] d[j]) {
                    lemma_digits_value_prefix(d, k + 1);
                    assert(acc * 10 + dv > max) by (nonlinear_arith)
                        requires dv > max || acc > (max - dv) / 10, acc >= 0, dv >= 0;
                    assert(decimal_value(s@) == Some(digits_value(d)));
                }
            }
            return None;
        }
        assert(acc * 10 + dv <= max) by (nonlinear_arith)
            requires dv <= max, acc <= (max - dv) / 10, acc >= 0;
        acc = acc * 10 + dv;
        i = i + 1;
    }
    assert(d.subrange(0, n - start) =~= d);
    Some(acc)
}

/// A string written as a JSON string literal by serde_json: quoted, with the
/// characters JSON reserves escaped.
pub uninterp spec fn json_quoted(s: Seq<char>) -> Seq<char>;

/// Relies on serde_json's compact `Display` of `Value::String`, which writes
/// the string as a JSON string literal.
#[verifier::external_body]
pub fn quote_json_string(s: &str) -> (r: String)
    ensures
        r@ == json_quoted(s@),
{
    Value::String(s.to_string()).to_string()
}

/// The elements of a JSON array of strings, each written as a string literal,
/// separated by commas.
pub open spec fn quoted_items(items: Seq<Seq<char>>) -> Seq<char>
    decreases items.len(),
{
    if items.len() == 0 {
        Seq::empty()
    } else if items.len() == 1 {
        json_quoted(items[0])
    } else {
        quoted_items(items.drop_last()) + ","@ + json_quoted(items.last())
    }
}

/// A JSON array of strings.
pub open spec fn json_string_array(items: Seq<Seq<char>>) -> Seq<char> {
    "["@ + quoted_items(items) + "]"@
}

/// The text the `i`-th element adds to a JSON array of strings.
pub open spec fn array_item_text(i: int, item: Seq<char>) -> Seq<char> {
    if i == 0 {
        json_quoted(item)
    } else {
        ","@ + json_quoted(item)
    }
}

pub proof fn lemma_quoted_items_step(items: Seq<Seq<char>>, i: int)
    requires
        0 <= i < items.len(),
    ensures
        quoted_items(items.subrange(0, i + 1)) == quoted_items(items.subrange(0, i))
            + array_item_text(i, items[i]),
{
    assert(items.subrange(0, i + 1).drop_last() =~= items.subrange(0, i));
    if i == 0 {
        assert(quoted_items(items.subrange(0, 0)) =~= Seq::<char>::empty());
        assert(Seq::<char>::empty() + json_quoted(items[0]) =~= json_quoted(items[0]));
    }
}

/// Appends the `i`-th element of a JSON array of strings.
pub fn append_array_item(out: &mut String, i: usize, item: &str)
    ensures
        final(out)@ == old(out)@ + array_item_text(i as int, item@),
{
    let q = quote_json_string(item);
    if i > 0 {
        out.append(",");
        out.append(q.as_str());
        assert(old(out)@ + ","@ + q@ =~= old(out)@ + (","@ + q@));
    } else {
        out.append(q.as_str());
    }
}

/// Appends a JSON array of the strings `items`.
pub fn append_string_array(out: &mut String, items: &Vec<String>)
    ensures
        final(out)@ == old(out)@ + json_string_array(items@.map_values(|s: String| s@)),
{
    let ghost views = items@.map_values(|s: String| s@);
    let ghost start = old(out)@;
    out.append("[");
    let n = items.len();
    let mut i: usize = 0;
    assert(views.subrange(0, 0).len() == 0);
    while i < n
        invariant
            n == items@.len(),
            views == items@.map_values(|s: String| s@),
            i <= n,
            out@ == start + "["@ + quoted_items(views.subrange(0, i as int)),
        decreases n - i,
    {
        append_array_item(out, i, items[i].as_str());
        proof {
            lemma_quoted_items_step(views, i as int);
        }
        i = i + 1;
    }
    assert(views.subrange(0, n as int) =~= views);
    out.append("]");
    assert(out@ =~= start + json_string_array(views));
}

/// The value of the member `key` of `o`, null where there is none.
pub open spec fn member_or_null(o: JsonFields, key: Seq<char>) -> JsonLeaf {
    match member(o, key) {
        Some(v) => v,
        None => JsonLeaf::Null,
    }
}

/// The member `inner` of the object that is the member `outer` of `o`; null
/// where either is missing.
pub open spec fn nested_member(o: JsonFields, outer: Seq<char>, inner: Seq<char>) -> JsonLeaf {
    match member(o, outer) {
        Some(JsonLeaf::Object(text)) => match json_object_fields(text) {
            Some(fields) => member_or_null(fields, inner),
            None => JsonLeaf::Null,
        },
        _ => JsonLeaf::Null,
    }
}

impl JsonValue {
    /// A copy of the value.
    pub fn duplicate(&self) -> (r: JsonValue)
        ensures
            r@ == self@,
    {
        match self {
            JsonValue::Null => JsonValue::Null,
            JsonValue::Bool(b) => JsonValue::Bool(*b),
            JsonValue::Number(n) => JsonValue::Number(n.clone()),
            JsonValue::Text(t) => JsonValue::Text(t.clone()),
            JsonValue::Array(a) => JsonValue::Array(a.clone()),
            JsonValue::Object(o) => JsonValue::Object(o.clone()),
        }
    }
}

impl JsonObject {
    /// The value of the member `key`, null where there is none.
    pub fn get_or_null(&self, key: &str) -> (r: JsonValue)
        ensures
            r@ == member_or_null(self@, key@),
    {
        match self.get(key) {
            Some(v) => v.duplicate(),
            None => JsonValue::Null,
        }
    }

    /// The member `inner` of the object that is the member `outer`; null where
    /// either is missing.
    pub fn get_nested(&self, outer: &str, inner: &str) -> (r: JsonValue)
        ensures
            r@ == nested_member(self@, outer@, inner@),
    {
        match self.get(outer) {
            Some(JsonValue::Object(text)) => match parse_json_object(text.as_str()) {
                Ok(fields) => fields.get_or_null(inner),
                Err(_) => JsonValue::Null,
            },
            _ => JsonValue::Null,
        }
    }
}

} // verus!
