//! JSON texts.
use vstd::prelude::*;

use crate::db;
use crate::maps;
use crate::maps::TextMap;
use crate::text;

verus! {

/// Whether a text is a JSON document, as `serde_json::from_str` into a
/// `serde_json::Value` decides it.
pub uninterp spec fn json_valid(s: Seq<char>) -> bool;

/// `serde_json::from_str::<serde_json::Value>`: whether it accepts the text.
/// Which texts are JSON documents is left to the name `json_valid`.
#[verifier::external_body]
pub(crate) fn is_json(s: &str) -> (r: bool)
    ensures
        r == json_valid(s@),
{
    serde_json::from_str::<serde_json::Value>(s).is_ok()
}

/// A text as a JSON string, in quotes and with its escapes.
pub uninterp spec fn json_quoted(s: Seq<char>) -> Seq<char>;

/// The text of `serde_json::Value::String`: the JSON string that the name
/// `json_quoted` stands for.
#[verifier::external_body]
pub(crate) fn quote(s: &str) -> (r: String)
    ensures
        r@ == json_quoted(s@),
{
    serde_json::Value::from(s).to_string()
}

/// The members of a JSON object whose values are all strings, sorted by key, or what is
/// wrong with the text.
pub uninterp spec fn json_string_members(s: Seq<char>) -> Result<
    Seq<(Seq<char>, Seq<char>)>,
    Seq<char>,
>;

/// `serde_json::from_str` into a map from strings to strings: its entries in the order
/// of their keys, or the text of the error, as the name `json_string_members` stands for.
#[verifier::external_body]
fn string_members(s: &str) -> (r: Result<Vec<(String, String)>, String>)
    ensures
        match r {
            Ok(v) => json_string_members(s@) == Ok::<Seq<(Seq<char>, Seq<char>)>, Seq<char>>(
                maps::pairs(v@),
            ),
            Err(e) => json_string_members(s@) == Err::<Seq<(Seq<char>, Seq<char>)>, Seq<char>>(e@),
        },
{
    match serde_json::from_str::<std::collections::BTreeMap<String, String>>(s) {
        Ok(m) => Ok(m.into_iter().collect()),
        Err(e) => Err(e.to_string()),
    }
}

/// The text of a JSON object of strings, of two values under one key the later.
pub uninterp spec fn json_object(members: Seq<(Seq<char>, Seq<char>)>) -> Seq<char>;

/// The text of a `serde_json::Value` that is an object of strings: the one that the name
/// `json_object` stands for. `serde_json::from_str` reads the map back from it.
#[verifier::external_body]
fn write_members(v: &Vec<(String, String)>) -> (r: String)
    ensures
        r@ == json_object(maps::pairs(v@)),
        (json_string_map(r@) == Ok::<Map<Seq<char>, Seq<char>>, Seq<char>>(
            maps::pairs_map(maps::pairs(v@)),
        )),
{
    let mut object = serde_json::Map::new();
    object.extend(v.iter().map(|p| (p.0.clone(), serde_json::Value::from(p.1.as_str()))));
    serde_json::Value::Object(object).to_string()
}

/// Writes a map as a JSON object of strings, from which it can be read back.
pub fn write_string_map(m: &TextMap<String>) -> (r: String)
    requires
        m.wf(),
    ensures
        r@ == json_object(maps::pairs(m.entries())),
        json_string_map(r@) == Ok::<Map<Seq<char>, Seq<char>>, Seq<char>>(maps::text_map(m@)),
{
    write_members(&m.to_pairs())
}

/// The strings of a JSON list of strings, where the text is one.
pub uninterp spec fn json_string_list(s: Seq<char>) -> Option<Seq<Seq<char>>>;

/// `serde_json::from_str` into a list of strings: the list that the name `json_string_list`
/// stands for, or none where the text is no such list.
#[verifier::external_body]
fn string_list(s: &str) -> (r: Option<Vec<String>>)
    ensures
        match r {
            Some(v) => json_string_list(s@) == Some(text::texts(v@)),
            None => json_string_list(s@) is None,
        },
{
    serde_json::from_str::<Vec<String>>(s).ok()
}

/// The strings that a text lists: none where there is no text or it lists none.
pub open spec fn listed(s: Option<Seq<char>>) -> Seq<Seq<char>> {
    match s {
        Some(t) => match json_string_list(t) {
            Some(v) => v,
            None => seq![],
        },
        None => seq![],
    }
}

pub fn parse_string_array(value: Option<&str>) -> (r: Vec<String>)
    ensures
        text::texts(r@) == listed(db::opt_str(value)),
{
    if let Some(s) = value {
        if let Some(v) = string_list(s) {
            return v;
        }
    }
    let none: Vec<String> = Vec::new();
    assert(text::texts(none@) =~= seq![]);
    none
}

/// The map that a JSON object of strings stands for.
pub open spec fn json_string_map(s: Seq<char>) -> Result<Map<Seq<char>, Seq<char>>, Seq<char>> {
    match json_string_members(s) {
        Ok(v) => Ok(maps::pairs_map(v)),
        Err(e) => Err(e),
    }
}

/// Reads a JSON object of strings as a map.
pub fn parse_string_map(s: &str) -> (r: Result<TextMap<String>, String>)
    ensures
        match r {
            Ok(m) => m.wf() && json_string_map(s@) == Ok::<Map<Seq<char>, Seq<char>>, Seq<char>>(
                maps::text_map(m@),
            ),
            Err(e) => json_string_map(s@) == Err::<Map<Seq<char>, Seq<char>>, Seq<char>>(e@),
        },
{
    match string_members(s) {
        Ok(v) => {
            proof {
                maps::lemma_pairs_map(v@);
            }
            Ok(TextMap::from_entries(v))
        },
        Err(e) => Err(e),
    }
}

// ---------------------------------------------------------------------------
// Objects
// ---------------------------------------------------------------------------
/// A member of an object: its key, which needs no escapes, and the text of its value.
pub open spec fn member_text(m: (Seq<char>, Seq<char>)) -> Seq<char> {
    "\""@ + m.0 + "\":"@ + m.1
}

pub open spec fn member_texts(members: Seq<(Seq<char>, Seq<char>)>) -> Seq<Seq<char>> {
    members.map_values(|m: (Seq<char>, Seq<char>)| member_text(m))
}

/// A JSON object without white space.
pub open spec fn object_text(members: Seq<(Seq<char>, Seq<char>)>) -> Seq<char> {
    "{"@ + text::joined(member_texts(members), ","@) + "}"@
}

pub open spec fn flag_text(b: bool) -> Seq<char> {
    if b {
        "true"@
    } else {
        "false"@
    }
}

pub open spec fn opt_number_text(n: Option<i64>) -> Seq<char> {
    match n {
        Some(v) => text::decimal(v as int),
        None => "null"@,
    }
}

pub open spec fn opt_quoted(s: Option<Seq<char>>) -> Seq<char> {
    match s {
        Some(t) => json_quoted(t),
        None => "null"@,
    }
}

/// An object under construction.
pub struct ObjectText {
    parts: Vec<String>,
    members: Ghost<Seq<(Seq<char>, Seq<char>)>>,
}

impl ObjectText {
    pub closed spec fn wf(self) -> bool {
        text::texts(self.parts@) == member_texts(self.members@)
    }

    pub closed spec fn view(&self) -> Seq<(Seq<char>, Seq<char>)> {
        self.members@
    }

    pub fn new() -> (r: ObjectText)
        ensures
            r.wf(),
            r@ == Seq::<(Seq<char>, Seq<char>)>::empty(),
    {
        let r = ObjectText { parts: Vec::new(), members: Ghost(Seq::empty()) };
        assert(text::texts(r.parts@) =~= member_texts(r.members@));
        r
    }

    fn push(&mut self, key: &str, value: &str)
        requires
            old(self).wf(),
        ensures
            final(self).wf(),
            final(self)@ == old(self)@.push((key@, value@)),
    {
        let mut part = "\"".to_owned();
        part.append(key);
        part.append("\":");
        part.append(value);
        let ghost before = text::texts(self.parts@);
        let ghost members = self.members@;
        self.parts.push(part);
        self.members = Ghost(members.push((key@, value@)));
        assert(text::texts(self.parts@) =~= before.push(part@));
        assert(member_texts(self.members@) =~= before.push(member_text((key@, value@))));
    }

    pub fn number(&mut self, key: &str, value: i64)
        requires
            old(self).wf(),
        ensures
            final(self).wf(),
            final(self)@ == old(self)@.push((key@, text::decimal(value as int))),
    {
        self.push(key, text::i64_text(value).as_str());
    }

    pub fn opt_number(&mut self, key: &str, value: Option<i64>)
        requires
            old(self).wf(),
        ensures
            final(self).wf(),
            final(self)@ == old(self)@.push((key@, opt_number_text(value))),
    {
        match value {
            Some(v) => self.push(key, text::i64_text(v).as_str()),
            None => self.push(key, "null"),
        }
    }

    pub fn string(&mut self, key: &str, value: &str)
        requires
            old(self).wf(),
        ensures
            final(self).wf(),
            final(self)@ == old(self)@.push((key@, json_quoted(value@))),
    {
        self.push(key, quote(value).as_str());
    }

    pub fn opt_string(&mut self, key: &str, value: &Option<String>)
        requires
            old(self).wf(),
        ensures
            final(self).wf(),
            final(self)@ == old(self)@.push((key@, opt_quoted(crate::db::opt_text(*value)))),
    {
        match value {
            Some(v) => self.push(key, quote(v.as_str()).as_str()),
            None => self.push(key, "null"),
        }
    }

    pub fn flag(&mut self, key: &str, value: bool)
        requires
            old(self).wf(),
        ensures
            final(self).wf(),
            final(self)@ == old(self)@.push((key@, flag_text(value))),
    {
        if value {
            self.push(key, "true");
        } else {
            self.push(key, "false");
        }
    }

    pub fn finish(self) -> (r: String)
        requires
            self.wf(),
        ensures
            r@ == object_text(self@),
    {
        let mut out = "{".to_owned();
        out.append(text::join(&self.parts, ",").as_str());
        out.append("}");
        out
    }
}

// ---------------------------------------------------------------------------
// Values
// ---------------------------------------------------------------------------
/// What is looked at in a number.
#[derive(Debug, Clone, Copy, PartialEq, Eq, Structural)]
pub struct NumberFacts {
    /// The number, where it is an integer of 64 bits.
    pub integer: Option<i64>,
    /// A hundred times the number, rounded, where it is at least zero.
    pub cents: Option<i64>,
    /// The same, where the number is more than zero.
    pub positive_cents: Option<i64>,
    /// The same, where the number is more than zero and at most 99999999.99.
    pub price_cents: Option<i64>,
    /// Ten thousand times the number, rounded, where it is more than zero.
    pub positive_bps: Option<i64>,
}

/// A JSON value, and its text.
#[derive(Debug)]
pub struct JsonValue {
    pub shown: String,
    pub data: JsonData,
}

#[derive(Debug)]
pub enum JsonData {
    Null,
    Flag { flag: bool },
    Number { number: NumberFacts },
    Text { text: String },
    List,
    Object { members: TextMap<JsonValue> },
}

impl JsonValue {
    /// The keys of an object are distinct, at every depth that is looked at.
    pub open spec fn wf(self) -> bool {
        self.data matches JsonData::Object { members } ==> members.wf()
    }
}

/// An object is written as its members between braces, one after another, each as its name in
/// quotes and its value.
pub proof fn law_objects_list_their_members(members: Seq<(Seq<char>, Seq<char>)>)
    ensures
        object_text(members) == "{"@ + text::joined(member_texts(members), ","@) + "}"@,
        member_texts(members).len() == members.len(),
        forall|i: int|
            0 <= i < members.len() ==> #[trigger] member_texts(members)[i] == "\""@ + members[i].0
                + "\":"@ + members[i].1,
{
}

}
