//! JSON values as plain data, and the typed reads that claim sets are made of.

use vstd::prelude::*;
use vstd::string::*;

verus! {

/// A JSON number: its value where it is an integer that fits `i64`, and its
/// decimal text in every case.
#[derive(Debug)]
pub struct JsonNumber {
    pub integer: Option<i64>,
    pub text: String,
}

/// A JSON value.  An object holds its members in a row; where a name occurs
/// twice, the first member of that name counts.  An object that was parsed
/// has each name once, in the order of the names.
#[derive(Debug)]
pub enum Json {
    Null,
    Bool(bool),
    Number(JsonNumber),
    Text(String),
    Array(Vec<Json>),
    Object(Vec<(String, Json)>),
}

/// The mathematical value of a [`Json`].
pub enum JsonValue {
    Null,
    Bool(bool),
    Number(Option<i64>, Seq<char>),
    Text(Seq<char>),
    Array(Seq<JsonValue>),
    Object(Seq<(Seq<char>, JsonValue)>),
}

/// The mathematical value of `json`.
pub open spec fn value_of(json: Json) -> JsonValue
    decreases json,
{
    match json {
        Json::Null => JsonValue::Null,
        Json::Bool(b) => JsonValue::Bool(b),
        Json::Number(n) => JsonValue::Number(n.integer, n.text@),
        Json::Text(s) => JsonValue::Text(s@),
        Json::Array(items) => JsonValue::Array(
            Seq::new(
                items@.len(),
                |i: int|
                    if 0 <= i < items@.len() {
                        value_of(items@[i])
                    } else {
                        JsonValue::Null
                    },
            ),
        ),
        Json::Object(members) => JsonValue::Object(
            Seq::new(
                members@.len(),
                |i: int|
                    if 0 <= i < members@.len() {
                        (members@[i].0@, value_of(members@[i].1))
                    } else {
                        (Seq::empty(), JsonValue::Null)
                    },
            ),
        ),
    }
}

impl View for Json {
    type V = JsonValue;

    open spec fn view(&self) -> JsonValue {
        value_of(*self)
    }
}

/// The value of the first member called `name` among `members`.
pub open spec fn lookup(members: Seq<(Seq<char>, JsonValue)>, name: Seq<char>) -> Option<JsonValue>
    decreases members.len(),
{
    if members.len() == 0 {
        None
    } else if members[0].0 == name {
        Some(members[0].1)
    } else {
        lookup(members.drop_first(), name)
    }
}

/// The texts of `items`, where each of them is a text.
pub open spec fn all_texts(items: Seq<JsonValue>) -> Option<Seq<Seq<char>>> {
    if forall|i: int| 0 <= i < items.len() ==> items[i] is Text {
        Some(Seq::new(items.len(), |i: int| items[i]->Text_0))
    } else {
        None
    }
}

/// The views of `texts`, one by one.
pub open spec fn views(texts: Seq<String>) -> Seq<Seq<char>> {
    Seq::new(texts.len(), |i: int| texts[i]@)
}

impl JsonValue {
    /// The member called `name`, where this is an object that has one.
    pub open spec fn member(self, name: Seq<char>) -> Option<JsonValue> {
        match self {
            JsonValue::Object(members) => lookup(members, name),
            _ => None,
        }
    }

    /// The integer that this is, where it is a number that fits `i64`.
    pub open spec fn as_integer(self) -> Option<i64> {
        match self {
            JsonValue::Number(integer, _) => integer,
            _ => None,
        }
    }

    /// The text that this is, where it is one.
    pub open spec fn as_text(self) -> Option<Seq<char>> {
        match self {
            JsonValue::Text(text) => Some(text),
            _ => None,
        }
    }

    /// The truth value that this is, where it is one.
    pub open spec fn as_flag(self) -> Option<bool> {
        match self {
            JsonValue::Bool(flag) => Some(flag),
            _ => None,
        }
    }

    /// The texts that this holds, where it is an array of texts.
    pub open spec fn as_texts(self) -> Option<Seq<Seq<char>>> {
        match self {
            JsonValue::Array(items) => all_texts(items),
            _ => None,
        }
    }

    /// Whether this is the text `text`, or an array that holds it.
    pub open spec fn holds_text(self, text: Seq<char>) -> bool {
        match self {
            JsonValue::Text(own) => own == text,
            JsonValue::Array(items) => exists|i: int|
                0 <= i < items.len() && #[trigger] items[i] == JsonValue::Text(text),
            _ => false,
        }
    }

    /// The integer in the member `name`, which must be there.
    pub open spec fn integer_at(self, name: Seq<char>) -> Option<i64> {
        match self.member(name) {
            Some(value) => value.as_integer(),
            None => None,
        }
    }

    /// The integer in the member `name`, which may be missing or null: the
    /// inner `None` then.  The outer `None` says that the member holds
    /// something else.
    pub open spec fn optional_integer_at(self, name: Seq<char>) -> Option<Option<i64>> {
        match self.member(name) {
            None => Some(None),
            Some(JsonValue::Null) => Some(None),
            Some(value) => match value.as_integer() {
                Some(integer) => Some(Some(integer)),
                None => None,
            },
        }
    }

    /// The text in the member `name`, which must be there.
    pub open spec fn text_at(self, name: Seq<char>) -> Option<Seq<char>> {
        match self.member(name) {
            Some(value) => value.as_text(),
            None => None,
        }
    }

    /// The text in the member `name`, or the empty text where there is no
    /// such member.  `None` says that the member holds something else.
    pub open spec fn text_or_empty_at(self, name: Seq<char>) -> Option<Seq<char>> {
        match self.member(name) {
            Some(value) => value.as_text(),
            None => Some(Seq::empty()),
        }
    }

    /// The truth value in the member `name`, or `false` where there is no
    /// such member.  `None` says that the member holds something else.
    pub open spec fn flag_or_false_at(self, name: Seq<char>) -> Option<bool> {
        match self.member(name) {
            Some(value) => value.as_flag(),
            None => Some(false),
        }
    }

    /// The texts in the member `name`, which must be there.
    pub open spec fn texts_at(self, name: Seq<char>) -> Option<Seq<Seq<char>>> {
        match self.member(name) {
            Some(value) => value.as_texts(),
            None => None,
        }
    }
}

impl Json {
    /// The member called `name`, where this is an object that has one.
    pub fn get(&self, name: &str) -> (r: Option<&Json>)
        ensures
            match r {
                Some(value) => self@.member(name@) == Some(value@),
                None => self@.member(name@) is None,
            },
    {
        match self {
            Json::Object(members) => {
                let wanted = String::from_str(name);
                let ghost all = self@->Object_0;
                let mut i: usize = 0;
                assert(all.skip(0) =~= all);
                while i < members.len()
                    invariant
                        i <= members@.len(),
                        wanted@ == name@,
                        self@ == JsonValue::Object(all),
                        all.len() == members@.len(),
                        forall|j: int|
                            0 <= j < all.len() ==> all[j] == (members@[j].0@, members@[j].1@),
                        lookup(all, name@) == lookup(all.skip(i as int), name@),
                    decreases members@.len() - i,
                {
                    assert(all.skip(i as int).drop_first() =~= all.skip(i + 1));
                    if members[i].0 == wanted {
                        return Some(&members[i].1);
                    }
                    i += 1;
                }
                None
            },
            _ => None,
        }
    }

    /// A copy of this value.
    pub fn duplicate(&self) -> (r: Json)
        ensures
            r@ == self@,
        decreases self,
    {
        match self {
            Json::Null => Json::Null,
            Json::Bool(flag) => Json::Bool(*flag),
            Json::Number(n) => Json::Number(
                JsonNumber { integer: n.integer, text: n.text.clone() },
            ),
            Json::Text(text) => Json::Text(text.clone()),
            Json::Array(items) => {
                let mut copies: Vec<Json> = Vec::new();
                let mut i: usize = 0;
                while i < items.len()
                    invariant
                        i <= items@.len(),
                        copies@.len() == i,
                        *self == Json::Array(*items),
                        forall|j: int| 0 <= j < i ==> copies@[j]@ == items@[j]@,
                    decreases items@.len() - i,
                {
                    assert(decreases_to!(*self => self->Array_0));
                    assert(decreases_to!(*items => items[i as int]));
                    copies.push(items[i].duplicate());
                    i += 1;
                }
                let r = Json::Array(copies);
                assert(r@->Array_0 =~= self@->Array_0);
                r
            },
            Json::Object(members) => {
                let mut copies: Vec<(String, Json)> = Vec::new();
                let mut i: usize = 0;
                while i < members.len()
                    invariant
                        i <= members@.len(),
                        copies@.len() == i,
                        *self == Json::Object(*members),
                        forall|j: int|
                            0 <= j < i ==> copies@[j].0@ == members@[j].0@ && copies@[j].1@
                                == members@[j].1@,
                    decreases members@.len() - i,
                {
                    assert(decreases_to!(*self => self->Object_0));
                    assert(decreases_to!(*members => members[i as int]));
                    assert(decreases_to!(members[i as int] => members[i as int].1));
                    copies.push((members[i].0.clone(), members[i].1.duplicate()));
                    i += 1;
                }
                let r = Json::Object(copies);
                assert(r@->Object_0 =~= self@->Object_0);
                r
            },
        }
    }

    /// The integer that this is, where it is a number that fits `i64`.
    pub fn as_integer(&self) -> (r: Option<i64>)
        ensures
            r == self@.as_integer(),
    {
        match self {
            Json::Number(n) => n.integer,
            _ => None,
        }
    }

    /// The text that this is, where it is one.
    pub fn as_text(&self) -> (r: Option<String>)
        ensures
            match r {
                Some(text) => self@.as_text() == Some(text@),
                None => self@.as_text() is None,
            },
    {
        match self {
            Json::Text(text) => Some(text.clone()),
            _ => None,
        }
    }

    /// The truth value that this is, where it is one.
    pub fn as_flag(&self) -> (r: Option<bool>)
        ensures
            r == self@.as_flag(),
    {
        match self {
            Json::Bool(flag) => Some(*flag),
            _ => None,
        }
    }

    /// The texts that this holds, where it is an array of texts.
    pub fn as_texts(&self) -> (r: Option<Vec<String>>)
        ensures
            match r {
                Some(texts) => self@.as_texts() == Some(views(texts@)),
                None => self@.as_texts() is None,
            },
    {
        match self {
            Json::Array(items) => {
                let mut texts: Vec<String> = Vec::new();
                let ghost all = self@->Array_0;
                let mut i: usize = 0;
                while i < items.len()
                    invariant
                        i <= items@.len(),
                        texts@.len() == i,
                        self@ == JsonValue::Array(all),
                        all.len() == items@.len(),
                        forall|j: int| 0 <= j < all.len() ==> all[j] == items@[j]@,
                        forall|j: int| 0 <= j < i ==> all[j] == JsonValue::Text(texts@[j]@),
                    decreases items@.len() - i,
                {
                    match &items[i] {
                        Json::Text(text) => {
                            texts.push(text.clone());
                        },
                        _ => {
                            assert(!(all[i as int] is Text));
                            return None;
                        },
                    }
                    i += 1;
                }
                assert(all_texts(all)->0 =~= views(texts@));
                Some(texts)
            },
            _ => None,
        }
    }

    /// Whether this is the text `text`, or an array that holds it.
    pub fn holds_text(&self, text: &str) -> (r: bool)
        ensures
            r == self@.holds_text(text@),
    {
        let wanted = String::from_str(text);
        match self {
            Json::Text(own) => *own == wanted,
            Json::Array(items) => {
                let ghost all = self@->Array_0;
                let mut i: usize = 0;
                while i < items.len()
                    invariant
                        i <= items@.len(),
                        wanted@ == text@,
                        self@ == JsonValue::Array(all),
                        all.len() == items@.len(),
                        forall|j: int| 0 <= j < all.len() ==> all[j] == items@[j]@,
                        forall|j: int| 0 <= j < i ==> all[j] != JsonValue::Text(text@),
                    decreases items@.len() - i,
                {
                    match &items[i] {
                        Json::Text(own) => {
                            if *own == wanted {
                                assert(all[i as int] == JsonValue::Text(text@));
                                return true;
                            }
                        },
                        _ => {
                            assert(!(all[i as int] is Text));
                        },
                    }
                    i += 1;
                }
                false
            },
            _ => false,
        }
    }

    /// The integer in the member `name`, which must be there.
    pub fn integer_at(&self, name: &str) -> (r: Option<i64>)
        ensures
            r == self@.integer_at(name@),
    {
        match self.get(name) {
            Some(value) => value.as_integer(),
            None => None,
        }
    }

    /// The integer in the member `name`, which may be missing or null.
    pub fn optional_integer_at(&self, name: &str) -> (r: Option<Option<i64>>)
        ensures
            r == self@.optional_integer_at(name@),
    {
        match self.get(name) {
            None => Some(None),
            Some(Json::Null) => Some(None),
            Some(value) => match value.as_integer() {
                Some(integer) => Some(Some(integer)),
                None => None,
            },
        }
    }

    /// The text in the member `name`, which must be there.
    pub fn text_at(&self, name: &str) -> (r: Option<String>)
        ensures
            match r {
                Some(text) => self@.text_at(name@) == Some(text@),
                None => self@.text_at(name@) is None,
            },
    {
        match self.get(name) {
            Some(value) => value.as_text(),
            None => None,
        }
    }

    /// The text in the member `name`, or the empty text where there is no
    /// such member.
    pub fn text_or_empty_at(&self, name: &str) -> (r: Option<String>)
        ensures
            match r {
                Some(text) => self@.text_or_empty_at(name@) == Some(text@),
                None => self@.text_or_empty_at(name@) is None,
            },
    {
        match self.get(name) {
            Some(value) => value.as_text(),
            None => Some(String::new()),
        }
    }

    /// The truth value in the member `name`, or `false` where there is no
    /// such member.
    pub fn flag_or_false_at(&self, name: &str) -> (r: Option<bool>)
        ensures
            r == self@.flag_or_false_at(name@),
    {
        match self.get(name) {
            Some(value) => value.as_flag(),
            None => Some(false),
        }
    }

    /// The texts in the member `name`, which must be there.
    pub fn texts_at(&self, name: &str) -> (r: Option<Vec<String>>)
        ensures
            match r {
                Some(texts) => self@.texts_at(name@) == Some(views(texts@)),
                None => self@.texts_at(name@) is None,
            },
    {
        match self.get(name) {
            Some(value) => value.as_texts(),
            None => None,
        }
    }
}

/// `serde_json::Value`, the tree that the parser builds.
#[verifier::external_type_specification]
#[verifier::external_body]
pub struct ExValue(serde_json::Value);

/// What a `serde_json::Value` holds.
pub uninterp spec fn json_content(value: serde_json::Value) -> JsonValue;

/// The value that `serde_json::from_slice` reads from a text, where it reads one.
pub uninterp spec fn json_parsing(text: Seq<u8>) -> Option<JsonValue>;

/// Calls `serde_json::from_slice` for a `serde_json::Value`.  The parser
/// reads the bytes and nothing else, so the tree it returns is named by
/// [`json_parsing`], which is `None` exactly where the parser reports an
/// error; the error comes back as its message.
#[verifier::external_body]
pub(crate) fn parse_value(text: &[u8]) -> (r: Result<serde_json::Value, String>)
    ensures
        match r {
            Ok(value) => json_parsing(text@) == Some(json_content(value)),
            Err(_) => json_parsing(text@) is None,
        },
{
    serde_json::from_slice::<serde_json::Value>(text).map_err(|e| e.to_string())
}

/// Copies a `serde_json::Value` into a [`Json`], variant by variant.  A number
/// keeps what `Number::as_i64` and its `Display` give; an object's members
/// come in the order in which `serde_json::Map` hands them out, which is the
/// order of their names.  The copy is what gives [`json_content`] its
/// meaning: nothing else is claimed of it.
#[verifier::external_body]
pub(crate) fn json_of(value: &serde_json::Value) -> (r: Json)
    ensures
        r@ == json_content(*value),
{
    match value {
        serde_json::Value::Null => Json::Null,
        serde_json::Value::Bool(b) => Json::Bool(*b),
        serde_json::Value::Number(n) => Json::Number(
            JsonNumber { integer: n.as_i64(), text: n.to_string() },
        ),
        serde_json::Value::String(s) => Json::Text(s.clone()),
        serde_json::Value::Array(items) => Json::Array(items.iter().map(json_of).collect()),
        serde_json::Value::Object(members) => Json::Object(
            members.iter().map(|(k, v)| (k.clone(), json_of(v))).collect(),
        ),
    }
}

/// Reads a JSON text; where it is none, the parser's message comes back.
pub fn parse(text: &[u8]) -> (r: Result<Json, String>)
    ensures
        match r {
            Ok(json) => json_parsing(text@) == Some(json@),
            Err(_) => json_parsing(text@) is None,
        },
{
    match parse_value(text) {
        Ok(value) => Ok(json_of(&value)),
        Err(e) => Err(e),
    }
}

} // verus!
