//! The JSON that a tool's script prints, as plain values, and the ways the
//! tools read it: a field by name, a field as text, flag or number with a
//! default, and the list of records (an array, or one record standing alone).
use vstd::prelude::*;
use crate::error::ToolError;
use crate::text::{is_blank, text_is_blank, texts};

verus! {

/// A JSON number, as the three readings the tools make of it: the `u64` it
/// is, when it is a non-negative integer that fits one; the `i64` it is, when
/// it is an integer that fits one; and the text that stands for it.
#[derive(Debug)]
pub struct JsonNumber {
    pub unsigned: Option<u64>,
    pub signed: Option<i64>,
    pub text: String,
}

/// A JSON value. An object keeps its members in order, each key once.
#[derive(Debug)]
pub enum JsonValue {
    Null,
    Bool(bool),
    Number(JsonNumber),
    String(String),
    Array(Vec<JsonValue>),
    Object(Vec<(String, JsonValue)>),
}

/// The value of the first member named `key`.
pub open spec fn lookup(members: Seq<(String, JsonValue)>, key: Seq<char>) -> Option<JsonValue>
    decreases members.len(),
{
    if members.len() == 0 {
        None
    } else if members[0].0@ == key {
        Some(members[0].1)
    } else {
        lookup(members.drop_first(), key)
    }
}

/// The text of an optional string.
pub open spec fn text_view(o: Option<String>) -> Option<Seq<char>> {
    match o {
        Some(s) => Some(s@),
        None => None,
    }
}

/// A hexadecimal digit, lower case, for a number below sixteen.
pub open spec fn hex_digit(d: nat) -> char {
    if d < 10 {
        (d + 48) as char
    } else {
        (d + 87) as char
    }
}

/// One character as it stands inside a JSON string that `serde_json` prints:
/// the quote, the backslash and the control characters are escaped, every
/// other character stands for itself.
pub open spec fn json_escape_char(c: char) -> Seq<char> {
    let n = c as u32;
    if c == '"' {
        seq!['\\', '"']
    } else if c == '\\' {
        seq!['\\', '\\']
    } else if n == 8 {
        seq!['\\', 'b']
    } else if n == 9 {
        seq!['\\', 't']
    } else if n == 10 {
        seq!['\\', 'n']
    } else if n == 12 {
        seq!['\\', 'f']
    } else if n == 13 {
        seq!['\\', 'r']
    } else if n < 32 {
        seq!['\\', 'u', '0', '0', hex_digit((n / 16) as nat), hex_digit((n % 16) as nat)]
    } else {
        seq![c]
    }
}

/// The escaped characters of a text, in order.
pub open spec fn json_escape(s: Seq<char>) -> Seq<char>
    decreases s.len(),
{
    if s.len() == 0 {
        Seq::empty()
    } else {
        json_escape(s.drop_last()) + json_escape_char(s.last())
    }
}

/// A JSON string literal as `serde_json` prints it: the escaped text in
/// double quotes.
pub open spec fn json_string(s: Seq<char>) -> Seq<char> {
    seq!['"'] + json_escape(s) + seq!['"']
}

/// Prints a JSON string literal.
/// Calls `serde_json::to_string` on the text, which writes a double quote,
/// each character through the escape table of `serde_json::ser` (quote,
/// backslash, `\b \t \n \f \r`, other control characters as `\u00xx` with
/// lower-case digits), and a closing double quote; it does not fail on a `str`.
#[verifier::external_body]
fn json_quote(s: &str) -> (r: String)
    ensures
        r@ == json_string(s@),
{
    match serde_json::to_string(s) {
        Ok(t) => t,
        Err(_) => String::new(),
    }
}

impl JsonValue {
    /// The member named `key`, when this is an object that has one.
    pub open spec fn member(self, key: Seq<char>) -> Option<JsonValue> {
        match self {
            JsonValue::Object(m) => lookup(m@, key),
            _ => None,
        }
    }

    /// `value["key"]`: the member named `key`, or `null` when there is none.
    pub open spec fn at(self, key: Seq<char>) -> JsonValue {
        match self.member(key) {
            Some(v) => v,
            None => JsonValue::Null,
        }
    }

    /// `as_str`: the text of a string.
    pub open spec fn str_value(self) -> Option<Seq<char>> {
        match self {
            JsonValue::String(s) => Some(s@),
            _ => None,
        }
    }

    /// `as_bool`: the value of a boolean.
    pub open spec fn bool_value(self) -> Option<bool> {
        match self {
            JsonValue::Bool(b) => Some(b),
            _ => None,
        }
    }

    /// `as_u64`: a non-negative integer.
    pub open spec fn u64_value(self) -> Option<u64> {
        match self {
            JsonValue::Number(n) => n.unsigned,
            _ => None,
        }
    }

    /// `as_i64`: an integer that fits in an `i64`.
    pub open spec fn i64_value(self) -> Option<i64> {
        match self {
            JsonValue::Number(n) => n.signed,
            _ => None,
        }
    }

    /// The elements of an array.
    pub open spec fn array_items(self) -> Option<Seq<JsonValue>> {
        match self {
            JsonValue::Array(a) => Some(a@),
            _ => None,
        }
    }

    /// The records a script printed: the elements of an array, or the value
    /// itself as the one record.
    pub open spec fn records(self) -> Seq<JsonValue> {
        match self {
            JsonValue::Array(a) => a@,
            _ => seq![self],
        }
    }

    /// `as_str().unwrap_or_default()`: the text of a string, or the empty text.
    pub open spec fn str_or_empty(self) -> Seq<char> {
        match self.str_value() {
            Some(s) => s,
            None => Seq::empty(),
        }
    }

    /// The text of the field, or the empty text.
    pub open spec fn text_or_empty(self, key: Seq<char>) -> Seq<char> {
        match self.at(key).str_value() {
            Some(s) => s,
            None => Seq::empty(),
        }
    }

    /// The boolean of the field, or `false`.
    pub open spec fn flag_or_false(self, key: Seq<char>) -> bool {
        match self.at(key).bool_value() {
            Some(b) => b,
            None => false,
        }
    }

    /// The non-negative integer of the field, or zero.
    pub open spec fn u64_or_zero(self, key: Seq<char>) -> u64 {
        match self.at(key).u64_value() {
            Some(n) => n,
            None => 0,
        }
    }

    /// The integer of the field, or zero.
    pub open spec fn i64_or_zero(self, key: Seq<char>) -> i64 {
        match self.at(key).i64_value() {
            Some(n) => n,
            None => 0,
        }
    }

    /// The value is neither an array nor an object.
    pub open spec fn is_scalar(self) -> bool {
        !(self is Array) && !(self is Object)
    }

    /// How `serde_json` displays a value that is neither array nor object.
    pub open spec fn scalar_text(self) -> Seq<char> {
        match self {
            JsonValue::Null => "null"@,
            JsonValue::Bool(b) => if b {
                "true"@
            } else {
                "false"@
            },
            JsonValue::Number(n) => n.text@,
            JsonValue::String(s) => json_string(s@),
            _ => Seq::empty(),
        }
    }

    /// `value.get(key)` on an object: the member named `key`.
    pub fn get(&self, key: &str) -> (r: Option<&JsonValue>)
        ensures
            r matches Some(v) ==> self.member(key@) == Some(*v),
            r is None ==> self.member(key@) is None,
    {
        match self {
            JsonValue::Object(members) => {
                let wanted = key.to_string();
                let mut i: usize = 0;
                assert(members@.skip(0) =~= members@);
                while i < members.len()
                    invariant
                        i <= members.len(),
                        wanted@ == key@,
                        self.member(key@) == lookup(members@, key@),
                        lookup(members@, key@) == lookup(members@.skip(i as int), key@),
                    decreases members.len() - i,
                {
                    assert(members@.skip(i as int).drop_first() =~= members@.skip(i + 1));
                    assert(members@.skip(i as int)[0] == members@[i as int]);
                    if members[i].0 == wanted {
                        assert(members@[i as int].0@ == key@);
                        assert(lookup(members@.skip(i as int), key@) == Some(members@[i as int].1));
                        let found: &JsonValue = &members[i].1;
                        return Some(found);
                    }
                    i = i + 1;
                }
                None
            },
            _ => None,
        }
    }

    /// `value.as_str()`.
    pub fn as_str(&self) -> (r: Option<&String>)
        ensures
            r matches Some(s) ==> self.str_value() == Some(s@),
            r is None ==> self.str_value() is None,
    {
        match self {
            JsonValue::String(s) => Some(s),
            _ => None,
        }
    }

    /// `value.as_bool()`.
    pub fn as_bool(&self) -> (r: Option<bool>)
        ensures
            r == self.bool_value(),
    {
        match self {
            JsonValue::Bool(b) => Some(*b),
            _ => None,
        }
    }

    /// `value.as_u64()`.
    pub fn as_u64(&self) -> (r: Option<u64>)
        ensures
            r == self.u64_value(),
    {
        match self {
            JsonValue::Number(n) => n.unsigned,
            _ => None,
        }
    }

    /// `value.as_i64()`.
    pub fn as_i64(&self) -> (r: Option<i64>)
        ensures
            r == self.i64_value(),
    {
        match self {
            JsonValue::Number(n) => n.signed,
            _ => None,
        }
    }

    /// `value.as_array()`.
    pub fn as_array(&self) -> (r: Option<&Vec<JsonValue>>)
        ensures
            r matches Some(a) ==> self.array_items() == Some(a@),
            r is None ==> self.array_items() is None,
    {
        match self {
            JsonValue::Array(a) => Some(a),
            _ => None,
        }
    }

    /// The text of field `key`, when it is a string.
    pub fn field_text(&self, key: &str) -> (r: Option<String>)
        ensures
            text_view(r) == self.at(key@).str_value(),
    {
        match self.get(key) {
            Some(v) => match v.as_str() {
                Some(s) => Some(s.clone()),
                None => None,
            },
            None => None,
        }
    }

    /// The text of field `key`, or the empty text.
    pub fn text_or_empty_at(&self, key: &str) -> (r: String)
        ensures
            r@ == self.text_or_empty(key@),
    {
        match self.field_text(key) {
            Some(s) => s,
            None => String::new(),
        }
    }

    /// The boolean of field `key`, when it is one.
    pub fn field_flag(&self, key: &str) -> (r: Option<bool>)
        ensures
            r == self.at(key@).bool_value(),
    {
        match self.get(key) {
            Some(v) => v.as_bool(),
            None => None,
        }
    }

    /// The boolean of field `key`, or `false`.
    pub fn flag_or_false_at(&self, key: &str) -> (r: bool)
        ensures
            r == self.flag_or_false(key@),
    {
        match self.field_flag(key) {
            Some(b) => b,
            None => false,
        }
    }

    /// The non-negative integer of field `key`, when it is one.
    pub fn field_u64(&self, key: &str) -> (r: Option<u64>)
        ensures
            r == self.at(key@).u64_value(),
    {
        match self.get(key) {
            Some(v) => v.as_u64(),
            None => None,
        }
    }

    /// The non-negative integer of field `key`, or zero.
    pub fn u64_or_zero_at(&self, key: &str) -> (r: u64)
        ensures
            r == self.u64_or_zero(key@),
    {
        match self.field_u64(key) {
            Some(n) => n,
            None => 0,
        }
    }

    /// The integer of field `key`, when it is one that fits in an `i64`.
    pub fn field_i64(&self, key: &str) -> (r: Option<i64>)
        ensures
            r == self.at(key@).i64_value(),
    {
        match self.get(key) {
            Some(v) => v.as_i64(),
            None => None,
        }
    }

    /// The integer of field `key`, or zero.
    pub fn i64_or_zero_at(&self, key: &str) -> (r: i64)
        ensures
            r == self.i64_or_zero(key@),
    {
        match self.field_i64(key) {
            Some(n) => n,
            None => 0,
        }
    }

    /// The records a script printed: the elements of an array, or the value
    /// itself as the one record.
    pub fn into_records(self) -> (r: Vec<JsonValue>)
        ensures
            r@ == self.records(),
    {
        match self {
            JsonValue::Array(a) => a,
            other => {
                let r = vec![other];
                assert(r@ =~= seq![other]);
                r
            },
        }
    }

    /// The display of a value that is neither array nor object.
    pub fn display_scalar(&self) -> (r: String)
        requires
            self.is_scalar(),
        ensures
            r@ == self.scalar_text(),
    {
        match self {
            JsonValue::Null => "null".to_string(),
            JsonValue::Bool(b) => if *b {
                "true".to_string()
            } else {
                "false".to_string()
            },
            JsonValue::Number(n) => n.text.clone(),
            JsonValue::String(s) => json_quote(s.as_str()),
            _ => String::new(),
        }
    }
}

/// The text of each value that is a string, and the empty text for each
/// value that is not.
pub open spec fn texts_or_empty(items: Seq<JsonValue>) -> Seq<Seq<char>> {
    items.map_values(|v: JsonValue| v.str_or_empty())
}

/// The text of each value that is a string, and the empty text for each
/// value that is not.
pub fn strings_or_empty(items: &Vec<JsonValue>) -> (r: Vec<String>)
    ensures
        texts(r@) == texts_or_empty(items@),
{
    let mut out: Vec<String> = Vec::new();
    let mut i: usize = 0;
    while i < items.len()
        invariant
            i <= items.len(),
            texts(out@) == texts_or_empty(items@.take(i as int)),
        decreases items.len() - i,
    {
        let text = match items[i].as_str() {
            Some(s) => s.clone(),
            None => String::new(),
        };
        assert(text@ == items@[i as int].str_or_empty());
        let ghost before = out@;
        out.push(text);
        assert(texts(out@) =~= texts(before).push(text@));
        assert(texts(out@) =~= texts_or_empty(items@.take(i + 1)));
        i = i + 1;
    }
    assert(items@.take(items.len() as int) =~= items@);
    out
}

/// The text that is parsed as the script's output: blank output stands for an
/// empty array.
pub open spec fn effective_output(text: Seq<char>) -> Seq<char> {
    if is_blank(text) {
        "[]"@
    } else {
        text
    }
}

/// `if json.trim().is_empty() { "[]" } else { json }`.
pub fn sanitize_output(text: &str) -> (r: &str)
    ensures
        r@ == effective_output(text@),
{
    if text_is_blank(text) {
        "[]"
    } else {
        text
    }
}

/// `serde_json::Value`, which the parser returns; the library holds no such
/// value, it only carries it from the parser into `from_serde`.
#[verifier::external_type_specification]
#[verifier::external_body]
pub struct ExSerdeValue(serde_json::Value);

/// What `serde_json::from_str::<serde_json::Value>` parses the text into, as
/// the library's value, or nothing when the text is not JSON.
pub uninterp spec fn parsed_json(text: Seq<char>) -> Option<JsonValue>;

/// The library's value for a parsed `serde_json::Value`, variant by variant.
/// A number keeps what its `as_u64`, `as_i64` and `to_string` give.
#[verifier::external_body]
fn from_serde(value: serde_json::Value) -> JsonValue {
    match value {
        serde_json::Value::Null => JsonValue::Null,
        serde_json::Value::Bool(b) => JsonValue::Bool(b),
        serde_json::Value::Number(n) => JsonValue::Number(
            JsonNumber { unsigned: n.as_u64(), signed: n.as_i64(), text: n.to_string() },
        ),
        serde_json::Value::String(t) => JsonValue::String(t),
        serde_json::Value::Array(a) => JsonValue::Array(a.into_iter().map(from_serde).collect()),
        serde_json::Value::Object(m) => JsonValue::Object(
            m.into_iter().map(|(k, v)| (k, from_serde(v))).collect(),
        ),
    }
}

/// Parses a text as JSON.
/// Calls `serde_json::from_str::<serde_json::Value>`; its result, read into
/// the library's value, is named by `parsed_json`. When the text is not JSON
/// the error comes back as the text `serde_json::Error` displays.
#[verifier::external_body]
fn parse_json(text: &str) -> (r: Result<JsonValue, String>)
    ensures
        match parsed_json(text@) {
            Some(v) => r == Ok::<JsonValue, String>(v),
            None => r is Err,
        },
{
    match serde_json::from_str::<serde_json::Value>(text) {
        Ok(v) => Ok(from_serde(v)),
        Err(e) => Err(e.to_string()),
    }
}

/// Reads what a script printed as JSON: blank output reads as an empty list,
/// and text that is not JSON is a `Json` error.
pub fn read_printed(printed: &str) -> (r: Result<JsonValue, ToolError>)
    ensures
        match parsed_json(effective_output(printed@)) {
            Some(v) => r == Ok::<JsonValue, ToolError>(v),
            None => r matches Err(ToolError::Json(_)),
        },
{
    let text = sanitize_output(printed);
    match parse_json(text) {
        Ok(v) => Ok(v),
        Err(msg) => Err(ToolError::Json(msg)),
    }
}

/// A type that a JSON record decodes into, with every field read from the
/// record or defaulted.
pub trait FromJson: Sized {
    /// The value holds what the record holds.
    spec fn describes(&self, item: JsonValue) -> bool;

    /// Reads the value from a record.
    fn from_json(item: &JsonValue) -> (r: Self)
        ensures
            r.describes(*item),
    ;
}

/// Each value describes the record at the same place.
pub open spec fn describes_all<T: FromJson>(out: Seq<T>, items: Seq<JsonValue>) -> bool {
    &&& out.len() == items.len()
    &&& forall|i: int| 0 <= i < items.len() ==> #[trigger] out[i].describes(items[i])
}

/// Decodes each record into a value.
pub fn decode_all<T: FromJson>(items: &Vec<JsonValue>) -> (r: Vec<T>)
    ensures
        describes_all(r@, items@),
{
    let mut out: Vec<T> = Vec::new();
    let mut i: usize = 0;
    while i < items.len()
        invariant
            i <= items.len(),
            out@.len() == i,
            forall|j: int| 0 <= j < i ==> #[trigger] out@[j].describes(items@[j]),
        decreases items.len() - i,
    {
        out.push(T::from_json(&items[i]));
        i = i + 1;
    }
    out
}

/// Decodes the records a script printed.
pub fn decode_records<T: FromJson>(raw: JsonValue) -> (r: Vec<T>)
    ensures
        describes_all(r@, raw.records()),
{
    let items = raw.into_records();
    decode_all(&items)
}

/// A type that a JSON record decodes into, where some fields must be there.
pub trait TryFromJson: Sized {
    /// The first required field that the record lacks, as the message that
    /// reports it.
    spec fn problem(item: JsonValue) -> Option<Seq<char>>;

    /// The value holds what the record holds.
    spec fn describes(&self, item: JsonValue) -> bool;

    /// Reads the value from a record, or reports the first missing field.
    fn try_from_json(item: &JsonValue) -> (r: Result<Self, ToolError>)
        ensures
            match Self::problem(*item) {
                Some(msg) => r matches Err(ToolError::InvalidInput(m)) && m@ == msg,
                None => r matches Ok(v) && v.describes(*item),
            },
    ;
}

/// The problem of the first record that has one.
pub open spec fn first_problem<T: TryFromJson>(items: Seq<JsonValue>) -> Option<Seq<char>>
    decreases items.len(),
{
    if items.len() == 0 {
        None
    } else {
        match T::problem(items[0]) {
            Some(msg) => Some(msg),
            None => first_problem::<T>(items.drop_first()),
        }
    }
}

/// Each value describes the record at the same place (fallible records).
pub open spec fn all_described<T: TryFromJson>(out: Seq<T>, items: Seq<JsonValue>) -> bool {
    &&& out.len() == items.len()
    &&& forall|i: int| 0 <= i < items.len() ==> #[trigger] out[i].describes(items[i])
}

/// Decodes the records a script printed; fails with the problem of the first
/// record that has one.
pub fn try_decode_records<T: TryFromJson>(raw: JsonValue) -> (r: Result<Vec<T>, ToolError>)
    ensures
        match first_problem::<T>(raw.records()) {
            Some(msg) => r matches Err(ToolError::InvalidInput(m)) && m@ == msg,
            None => r matches Ok(v) && all_described(v@, raw.records()),
        },
{
    let items = raw.into_records();
    let mut out: Vec<T> = Vec::new();
    let mut i: usize = 0;
    assert(items@.skip(0) =~= items@);
    while i < items.len()
        invariant
            items@ == raw.records(),
            i <= items.len(),
            out@.len() == i,
            forall|j: int| 0 <= j < i ==> #[trigger] out@[j].describes(items@[j]),
            first_problem::<T>(items@) == first_problem::<T>(items@.skip(i as int)),
        decreases items.len() - i,
    {
        assert(items@.skip(i as int).drop_first() =~= items@.skip(i + 1));
        assert(items@.skip(i as int)[0] == items@[i as int]);
        match T::try_from_json(&items[i]) {
            Ok(v) => out.push(v),
            Err(e) => return Err(e),
        }
        i = i + 1;
    }
    Ok(out)
}

} // verus!
