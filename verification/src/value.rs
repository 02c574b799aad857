use vstd::prelude::*;

verus! {

/// A structured value: what a remote call carries as its parameter and as
/// its result, and what a JSON document parses to.
///
/// A number is kept as a text, so that no rounding is ever decided here.
/// In a value that [`JsonValue::parse`] read, it is the text that
/// `serde_json::Number` displays for the number, which need not be the text
/// of the source: `1.50` reads as `1.5`, `1E2` as `100.0`. An object is a
/// list of entries; a key is looked up front to back and the first entry
/// with that key is the field.
#[derive(Debug, PartialEq, Eq)]
pub enum JsonValue {
    Null,
    Bool(bool),
    Number(String),
    String(String),
    List(Vec<JsonValue>),
    Object(Vec<(String, JsonValue)>),
}

/// The mathematical content of a [`JsonValue`].
pub enum Json {
    Null,
    Bool(bool),
    Number(Seq<char>),
    String(Seq<char>),
    List(Seq<Json>),
    Object(Seq<(Seq<char>, Json)>),
}

/// The content of `value`, entry by entry.
pub open spec fn content(value: JsonValue) -> Json
    decreases value,
{
    match value {
        JsonValue::Null => Json::Null,
        JsonValue::Bool(b) => Json::Bool(b),
        JsonValue::Number(n) => Json::Number(n@),
        JsonValue::String(s) => Json::String(s@),
        JsonValue::List(items) => Json::List(
            Seq::new(
                items@.len(),
                |i: int|
                    if 0 <= i < items@.len() {
                        content(items@[i])
                    } else {
                        Json::Null
                    },
            ),
        ),
        JsonValue::Object(entries) => Json::Object(
            Seq::new(
                entries@.len(),
                |i: int|
                    if 0 <= i < entries@.len() {
                        (entries@[i].0@, content(entries@[i].1))
                    } else {
                        (Seq::empty(), Json::Null)
                    },
            ),
        ),
    }
}

impl View for JsonValue {
    type V = Json;

    open spec fn view(&self) -> Json {
        content(*self)
    }
}

/// The value of the first entry at or after `from` whose key is `key`.
pub open spec fn lookup_from(entries: Seq<(Seq<char>, Json)>, key: Seq<char>, from: int) -> Option<
    Json,
>
    decreases entries.len() - from,
{
    if from < 0 || from >= entries.len() {
        None
    } else if entries[from].0 == key {
        Some(entries[from].1)
    } else {
        lookup_from(entries, key, from + 1)
    }
}

impl Json {
    /// The field `key` of an object; `None` for a missing field and for
    /// anything that is not an object.
    pub open spec fn field(self, key: Seq<char>) -> Option<Json> {
        match self {
            Json::Object(entries) => lookup_from(entries, key, 0),
            _ => None,
        }
    }

    /// The field `key` where it is a string.
    pub open spec fn text_field(self, key: Seq<char>) -> Option<Seq<char>> {
        match self.field(key) {
            Some(Json::String(s)) => Some(s),
            _ => None,
        }
    }

    /// The field `key` where it is a boolean.
    pub open spec fn flag_field(self, key: Seq<char>) -> Option<bool> {
        match self.field(key) {
            Some(Json::Bool(b)) => Some(b),
            _ => None,
        }
    }
}

/// Whether two string slices hold the same text.
pub fn same_text(a: &str, b: &str) -> (same: bool)
    ensures
        same == (a@ == b@),
{
    let left = a.to_owned();
    let right = b.to_owned();
    left == right
}

impl JsonValue {
    /// Looks up the field `key` of an object.
    pub fn field(&self, key: &str) -> (found: Option<&JsonValue>)
        ensures
            match found {
                Some(v) => self@.field(key@) == Some(v@),
                None => self@.field(key@) is None,
            },
    {
        match self {
            JsonValue::Object(entries) => {
                let ghost model = self@->Object_0;
                assert(model.len() == entries.len());
                assert forall|j: int| 0 <= j < entries.len() implies #[trigger] model[j] == (
                    entries@[j].0@,
                    entries@[j].1@,
                ) by {}
                let mut i: usize = 0;
                while i < entries.len()
                    invariant
                        i <= entries.len(),
                        self@ == Json::Object(model),
                        model.len() == entries.len(),
                        lookup_from(model, key@, 0) == lookup_from(model, key@, i as int),
                        forall|j: int|
                            0 <= j < entries.len() ==> #[trigger] model[j] == (
                                entries@[j].0@,
                                entries@[j].1@,
                            ),
                    decreases entries.len() - i,
                {
                    if same_text(entries[i].0.as_str(), key) {
                        return Some(&entries[i].1);
                    }
                    i += 1;
                }
                None
            },
            _ => None,
        }
    }

    /// The field `key` where it is a string.
    pub fn text_field(&self, key: &str) -> (found: Option<&String>)
        ensures
            match found {
                Some(s) => self@.text_field(key@) == Some(s@),
                None => self@.text_field(key@) is None,
            },
    {
        match self.field(key) {
            Some(JsonValue::String(s)) => Some(s),
            _ => None,
        }
    }

    /// The field `key` where it is a boolean.
    pub fn flag_field(&self, key: &str) -> (found: Option<bool>)
        ensures
            found == self@.flag_field(key@),
    {
        match self.field(key) {
            Some(JsonValue::Bool(b)) => Some(*b),
            _ => None,
        }
    }
}

/// Whether `c` is a decimal digit.
pub open spec fn is_digit(c: char) -> bool {
    48 <= c as u32 <= 57
}

/// The number that a text of decimal digits writes.
pub open spec fn decimal(digits: Seq<char>) -> int
    decreases digits.len(),
{
    if digits.len() == 0 {
        0
    } else {
        decimal(digits.drop_last()) * 10 + (digits.last() as u32 - 48)
    }
}

/// Whether `text` writes a number from 0 to 65535 as JSON does: decimal
/// digits only, and no leading zero but for the number zero itself.
pub open spec fn is_u16_text(text: Seq<char>) -> bool {
    &&& 1 <= text.len() <= 5
    &&& forall|i: int| 0 <= i < text.len() ==> is_digit(#[trigger] text[i])
    &&& text.len() == 1 || text[0] != '0'
    &&& decimal(text) <= 65535
}

impl Json {
    /// The number from 0 to 65535 that the value is, if it is one.
    pub open spec fn as_u16(self) -> Option<u16> {
        match self {
            Json::Number(text) => if is_u16_text(text) {
                Some(decimal(text) as u16)
            } else {
                None
            },
            _ => None,
        }
    }
}

/// A text of up to five digits writes a number below 100000.
proof fn lemma_decimal_bound(digits: Seq<char>)
    requires
        forall|i: int| 0 <= i < digits.len() ==> is_digit(#[trigger] digits[i]),
    ensures
        0 <= decimal(digits),
        digits.len() <= 5 ==> decimal(digits) < 100000,
        digits.len() <= 4 ==> decimal(digits) < 10000,
        digits.len() <= 3 ==> decimal(digits) < 1000,
        digits.len() <= 2 ==> decimal(digits) < 100,
        digits.len() <= 1 ==> decimal(digits) < 10,
    decreases digits.len(),
{
    if digits.len() > 0 {
        let front = digits.drop_last();
        assert forall|i: int| 0 <= i < front.len() implies is_digit(#[trigger] front[i]) by {
            assert(front[i] == digits[i]);
        }
        lemma_decimal_bound(front);
        assert(is_digit(digits[digits.len() - 1]));
    }
}

/// Reads a text as a number from 0 to 65535.
pub fn parse_u16(text: &str) -> (number: Option<u16>)
    ensures
        number is Some <==> is_u16_text(text@),
        number matches Some(n) ==> n == decimal(text@),
{
    let len = text.unicode_len();
    if len == 0 || len > 5 {
        return None;
    }
    let mut total: u32 = 0;
    let mut i: usize = 0;
    while i < len
        invariant
            i <= len,
            len == text@.len(),
            1 <= len <= 5,
            forall|j: int| 0 <= j < i ==> is_digit(#[trigger] text@[j]),
            total == decimal(text@.subrange(0, i as int)),
            i > 0 && len > 1 ==> text@[0] != '0',
        decreases len - i,
    {
        let c = text.get_char(i);
        if !('0' <= c && c <= '9') {
            return None;
        }
        if i == 0 && len > 1 && c == '0' {
            return None;
        }
        proof {
            let before = text@.subrange(0, i as int);
            let after = text@.subrange(0, i as int + 1);
            assert(after.drop_last() == before);
            assert(after.last() == c);
            assert forall|j: int| 0 <= j < before.len() implies is_digit(
                #[trigger] before[j],
            ) by {
                assert(before[j] == text@[j]);
            }
            lemma_decimal_bound(before);
        }
        total = total * 10 + (c as u32 - 48);
        i += 1;
    }
    proof {
        assert(text@.subrange(0, len as int) == text@);
    }
    if total <= 65535 {
        Some(total as u16)
    } else {
        None
    }
}

impl JsonValue {
    /// The number from 0 to 65535 that the value is, if it is one.
    pub fn as_u16(&self) -> (number: Option<u16>)
        ensures
            number == self@.as_u16(),
    {
        match self {
            JsonValue::Number(text) => parse_u16(text.as_str()),
            _ => None,
        }
    }
}

/// The message for a field that a parameter lacks.
pub open spec fn missing_field(key: Seq<char>) -> Seq<char> {
    "missing field `"@ + key + "`"@
}

/// The message for a field that holds a value of another type than asked.
pub open spec fn invalid_field(key: Seq<char>) -> Seq<char> {
    "invalid type for field `"@ + key + "`"@
}

impl Json {
    /// The field `key`, which must be there; the message for its absence
    /// otherwise.
    pub open spec fn required(self, key: Seq<char>) -> Result<Json, Seq<char>> {
        match self.field(key) {
            Some(value) => Ok(value),
            None => Err(missing_field(key)),
        }
    }

    /// The field `key`, which must be there and be a string.
    pub open spec fn required_text(self, key: Seq<char>) -> Result<Seq<char>, Seq<char>> {
        match self.required(key) {
            Ok(Json::String(s)) => Ok(s),
            Ok(_) => Err(invalid_field(key)),
            Err(message) => Err(message),
        }
    }

    /// The field `key`, which may be missing or null, and is a string
    /// otherwise.
    pub open spec fn optional_text(self, key: Seq<char>) -> Result<Option<Seq<char>>, Seq<char>> {
        match self.field(key) {
            None => Ok(None),
            Some(Json::Null) => Ok(None),
            Some(Json::String(s)) => Ok(Some(s)),
            Some(_) => Err(invalid_field(key)),
        }
    }
}

/// Builds [`missing_field`].
pub fn missing_field_message(key: &str) -> (message: String)
    ensures
        message@ == missing_field(key@),
{
    String::from_str("missing field `").concat(key).concat("`")
}

/// Builds [`invalid_field`].
pub fn invalid_field_message(key: &str) -> (message: String)
    ensures
        message@ == invalid_field(key@),
{
    String::from_str("invalid type for field `").concat(key).concat("`")
}

impl JsonValue {
    /// The field `key`, which must be there.
    pub fn required(&self, key: &str) -> (found: Result<&JsonValue, String>)
        ensures
            match found {
                Ok(value) => self@.required(key@) == Ok::<Json, Seq<char>>(value@),
                Err(message) => self@.required(key@) == Err::<Json, Seq<char>>(message@),
            },
    {
        match self.field(key) {
            Some(value) => Ok(value),
            None => Err(missing_field_message(key)),
        }
    }

    /// The field `key`, which must be there and be a string.
    pub fn required_text(&self, key: &str) -> (found: Result<String, String>)
        ensures
            match found {
                Ok(text) => self@.required_text(key@) == Ok::<Seq<char>, Seq<char>>(text@),
                Err(message) => self@.required_text(key@) == Err::<Seq<char>, Seq<char>>(
                    message@,
                ),
            },
    {
        match self.required(key) {
            Ok(JsonValue::String(s)) => Ok(s.clone()),
            Ok(_) => Err(invalid_field_message(key)),
            Err(message) => Err(message),
        }
    }

    /// The field `key`, which may be missing or null, and is a string
    /// otherwise.
    pub fn optional_text(&self, key: &str) -> (found: Result<Option<String>, String>)
        ensures
            match found {
                Ok(Some(text)) => self@.optional_text(key@) == Ok::<Option<Seq<char>>, Seq<char>>(
                    Some(text@),
                ),
                Ok(None) => self@.optional_text(key@) == Ok::<Option<Seq<char>>, Seq<char>>(None),
                Err(message) => self@.optional_text(key@) == Err::<Option<Seq<char>>, Seq<char>>(
                    message@,
                ),
            },
    {
        match self.field(key) {
            None => Ok(None),
            Some(JsonValue::Null) => Ok(None),
            Some(JsonValue::String(s)) => Ok(Some(s.clone())),
            Some(_) => Err(invalid_field_message(key)),
        }
    }
}

/// What `serde_json` reads from a JSON text: the document, or the message
/// of the error that it reports.
pub uninterp spec fn json_document(text: Seq<char>) -> Result<Json, Seq<char>>;

/// `serde_json::Value`, which passes from the parser to [`from_document`]
/// unread.
#[verifier::external_type_specification]
#[verifier::external_body]
pub struct ExDocument(serde_json::Value);

/// Moves a `serde_json::Value` into a [`JsonValue`], variant by variant. A
/// number becomes the text that `serde_json::Number` displays; the entries
/// of an object come in the order in which `serde_json::Map` hands them out.
#[verifier::external_body]
fn from_document(document: serde_json::Value) -> JsonValue {
    match document {
        serde_json::Value::Null => JsonValue::Null,
        serde_json::Value::Bool(b) => JsonValue::Bool(b),
        serde_json::Value::Number(n) => JsonValue::Number(n.to_string()),
        serde_json::Value::String(s) => JsonValue::String(s),
        serde_json::Value::Array(items) => JsonValue::List(
            items.into_iter().map(from_document).collect(),
        ),
        serde_json::Value::Object(entries) => JsonValue::Object(
            entries.into_iter().map(|(key, value)| (key, from_document(value))).collect(),
        ),
    }
}

/// Calls `serde_json::from_str` for a `serde_json::Value`. The contract
/// gives the outcome a name, [`json_document`]: the same text always reads
/// as the same document, or fails with the same message.
#[verifier::external_body]
fn read_document(text: &str) -> (read: Result<JsonValue, String>)
    ensures
        match read {
            Ok(value) => json_document(text@) == Ok::<Json, Seq<char>>(value@),
            Err(message) => json_document(text@) == Err::<Json, Seq<char>>(message@),
        },
{
    match serde_json::from_str::<serde_json::Value>(text) {
        Ok(document) => Ok(from_document(document)),
        Err(error) => Err(error.to_string()),
    }
}

impl JsonValue {
    /// Parses a JSON text.
    pub fn parse(text: &str) -> (read: Result<JsonValue, String>)
        ensures
            match read {
                Ok(value) => json_document(text@) == Ok::<Json, Seq<char>>(value@),
                Err(message) => json_document(text@) == Err::<Json, Seq<char>>(message@),
            },
    {
        read_document(text)
    }
}

} // verus!
