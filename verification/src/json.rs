//! JSON values, as `serde_json` holds them, and what the contracts of this
//! crate see of them.
use serde_json::Value;
use vstd::prelude::*;

verus! {

/// What a `serde_json::Value` holds, as a mathematical value.
pub enum Json {
    Null,
    Bool(bool),
    Number(JsonNumber),
    Text(Seq<char>),
    List(Seq<Json>),
    Object(Map<Seq<char>, Json>),
}

/// What a `serde_json::Number` holds: a `u64`, a negative `i64`, or a finite
/// floating point number, given by its bit pattern.
pub enum JsonNumber {
    Unsigned(u64),
    Negative(i64),
    Float(u64),
}

impl Json {
    /// The member of an object under `key`. Nothing else has members.
    pub open spec fn member(self, key: Seq<char>) -> Option<Json> {
        match self {
            Json::Object(members) => if members.contains_key(key) {
                Some(members[key])
            } else {
                None
            },
            _ => None,
        }
    }

    /// The number, where it is one that a `u64` holds without a fraction.
    pub open spec fn as_u64(self) -> Option<u64> {
        match self {
            Json::Number(JsonNumber::Unsigned(n)) => Some(n),
            _ => None,
        }
    }

    /// The characters of a JSON string.
    pub open spec fn as_str(self) -> Option<Seq<char>> {
        match self {
            Json::Text(text) => Some(text),
            _ => None,
        }
    }

    /// No floating point number is in the value, and its lists and objects nest
    /// at most `levels` deep.
    pub open spec fn is_exact_within(self, levels: nat) -> bool
        decreases levels,
    {
        match self {
            Json::Number(JsonNumber::Float(_)) => false,
            Json::List(items) => levels > 0 && forall|i: int|
                0 <= i < items.len() ==> (#[trigger] items[i]).is_exact_within(
                    (levels - 1) as nat,
                ),
            Json::Object(members) => levels > 0 && forall|key: Seq<char>|
                members.contains_key(key) ==> (#[trigger] members[key]).is_exact_within(
                    (levels - 1) as nat,
                ),
            _ => true,
        }
    }

    /// The value is one that its text gives back: it is exact, and nests no deeper
    /// than `serde_json` reads, which gives up at the 128th level.
    pub open spec fn is_portable(self) -> bool {
        self.is_exact_within(127)
    }
}

/// The JSON value of `serde_json`. It is opaque here: `json_content` says
/// what it holds.
#[verifier::external_type_specification]
#[verifier::external_body]
pub struct ExValue(serde_json::Value);

/// What `value` holds. Every trusted function below is stated over it.
pub uninterp spec fn json_content(value: serde_json::Value) -> Json;

/// What `serde_json::from_str` makes of `text`: the value it spells, or how
/// the error that comes back displays.
pub uninterp spec fn parsed_json(text: Seq<char>) -> Result<Json, Seq<char>>;

/// The compact text that `serde_json` displays for `json`.
pub uninterp spec fn json_text(json: Json) -> Seq<char>;

/// Trusted: `serde_json::from_str`, into a `Value`. Both the value and the
/// text of the error depend on `text` alone.
#[verifier::external_body]
pub(crate) fn json_from_str(text: &str) -> (result: Result<Value, String>)
    ensures
        match result {
            Ok(value) => parsed_json(text@) == Ok::<Json, Seq<char>>(json_content(value)),
            Err(reason) => parsed_json(text@) == Err::<Json, Seq<char>>(reason@),
        },
{
    match serde_json::from_str(text) {
        Ok(value) => Ok(value),
        Err(error) => Err(error.to_string()),
    }
}

/// Trusted: the `Display` of `serde_json::Value` in its compact form. The text
/// depends on what the value holds and on nothing else, since the members of
/// an object are kept in the order of their keys, and it is a single line,
/// since control characters inside strings are escaped. Where the value holds no
/// floating point number and nests no deeper than the parser goes, the parse of
/// the text with a newline behind it, which is white space, gives the value back:
/// integers are printed with all their digits, every escape is undone, and an
/// object is read member by member. Nothing is said of how floating point numbers
/// are read back.
#[verifier::external_body]
pub(crate) fn json_to_string(value: &Value) -> (text: String)
    ensures
        text@ == json_text(json_content(*value)),
        !text@.contains('\n'),
        json_content(*value).is_portable() ==> (parsed_json(text@ + "\n"@) == Ok::<
            Json,
            Seq<char>,
        >(json_content(*value))),
{
    value.to_string()
}

/// Trusted: `serde_json::Value::get` with a string index. It finds the member
/// under `key` of an object, and nothing in any other value.
#[verifier::external_body]
pub(crate) fn json_get<'a>(value: &'a Value, key: &str) -> (member: Option<&'a Value>)
    ensures
        match member {
            Some(found) => json_content(*value).member(key@) == Some(json_content(*found)),
            None => json_content(*value).member(key@) is None,
        },
{
    value.get(key)
}

/// Trusted: `serde_json::Value::as_u64`, which gives the number of a value that
/// holds a `u64`, and nothing for a negative number, a floating point number or
/// anything that is no number.
#[verifier::external_body]
pub(crate) fn json_as_u64(value: &Value) -> (number: Option<u64>)
    ensures
        number == json_content(*value).as_u64(),
{
    value.as_u64()
}

/// Trusted: `serde_json::Value::as_str`, which gives the characters of a JSON
/// string, and nothing for any other value.
#[verifier::external_body]
pub(crate) fn json_as_str(value: &Value) -> (text: Option<&str>)
    ensures
        match text {
            Some(found) => json_content(*value).as_str() == Some(found@),
            None => json_content(*value).as_str() is None,
        },
{
    value.as_str()
}

/// Trusted: `Clone` of `serde_json::Value`. The copy holds what the value holds.
#[verifier::external_body]
pub(crate) fn json_clone(value: &Value) -> (copy: Value)
    ensures
        json_content(copy) == json_content(*value),
{
    value.clone()
}

/// Trusted: `serde_json::Map::new`, as a JSON value: an object without members.
#[verifier::external_body]
pub(crate) fn json_empty_object() -> (value: Value)
    ensures
        json_content(value) == Json::Object(Map::empty()),
{
    Value::Object(serde_json::Map::new())
}

/// Trusted: `From<&str>` of `serde_json::Value`: the JSON string of these
/// characters.
#[verifier::external_body]
pub(crate) fn json_from_text(text: &str) -> (value: Value)
    ensures
        json_content(value) == Json::Text(text@),
{
    Value::from(text)
}

/// Trusted: `From<u64>` of `serde_json::Value`: the JSON number.
#[verifier::external_body]
pub(crate) fn json_from_u64(number: u64) -> (value: Value)
    ensures
        json_content(value) == Json::Number(JsonNumber::Unsigned(number)),
{
    Value::from(number)
}

/// Trusted: assignment through `IndexMut<&str>` of `serde_json::Value`. On an
/// object it puts `member` under `key`, in place of what was there. It panics
/// on a value that is neither an object nor null.
#[verifier::external_body]
pub(crate) fn json_set(value: &mut Value, key: &str, member: Value)
    requires
        json_content(*old(value)) is Object,
    ensures
        json_content(*final(value)) == Json::Object(
            json_content(*old(value))->Object_0.insert(key@, json_content(member)),
        ),
{
    value[key] = member;
}

} // verus!
