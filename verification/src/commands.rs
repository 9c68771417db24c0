//! Statements whose text is fixed, and the values that go with it.
//!
//! A [`Command`] is plain: a text with numbered placeholders, and a value for each of them in order. What a renderer
//! says of the one it returns is both.

use crate::json::Json;
use crate::text::{all_chars, opt_chars, opt_str_chars};
use crate::{Instant, Uuid};
use vstd::prelude::*;

verus! {

/// A value that goes with a command, of the type that the placeholder takes.
#[derive(Debug, PartialEq, Eq)]
pub enum Value {
    Id(Uuid),
    MaybeId(Option<Uuid>),
    Ids(Vec<Uuid>),
    Text(String),
    MaybeText(Option<String>),
    Texts(Vec<String>),
    Small(i16),
    Whole(i32),
    MaybeWhole(Option<i32>),
    Wholes(Vec<i32>),
    Int(i64),
    MaybeInt(Option<i64>),
    Flag(bool),
    MaybeFlag(Option<bool>),
    At(Instant),
    MaybeAt(Option<Instant>),
    /// A calendar day, as days since the Unix epoch.
    Day(i32),
    Json(Json),
    MaybeJson(Option<Json>),
    /// The members of a JSON object.
    Object(Vec<(String, Json)>),
}

/// What a [`Value`] says.
#[verifier::ext_equal]
pub enum Given {
    Id(Uuid),
    MaybeId(Option<Uuid>),
    Ids(Seq<Uuid>),
    Text(Seq<char>),
    MaybeText(Option<Seq<char>>),
    Texts(Seq<Seq<char>>),
    Small(i16),
    Whole(i32),
    MaybeWhole(Option<i32>),
    Wholes(Seq<i32>),
    Int(i64),
    MaybeInt(Option<i64>),
    Flag(bool),
    MaybeFlag(Option<bool>),
    At(Instant),
    MaybeAt(Option<Instant>),
    Day(i32),
    Json(Json),
    MaybeJson(Option<Json>),
    Object(Seq<(String, Json)>),
}

impl Value {
    /// What this value says.
    pub open spec fn view(&self) -> Given {
        match *self {
            Value::Id(id) => Given::Id(id),
            Value::MaybeId(id) => Given::MaybeId(id),
            Value::Ids(ids) => Given::Ids(ids@),
            Value::Text(text) => Given::Text(text@),
            Value::MaybeText(text) => Given::MaybeText(opt_chars(text)),
            Value::Texts(texts) => Given::Texts(all_chars(texts@)),
            Value::Small(number) => Given::Small(number),
            Value::Whole(number) => Given::Whole(number),
            Value::MaybeWhole(number) => Given::MaybeWhole(number),
            Value::Wholes(numbers) => Given::Wholes(numbers@),
            Value::Int(number) => Given::Int(number),
            Value::MaybeInt(number) => Given::MaybeInt(number),
            Value::Flag(flag) => Given::Flag(flag),
            Value::MaybeFlag(flag) => Given::MaybeFlag(flag),
            Value::At(at) => Given::At(at),
            Value::MaybeAt(at) => Given::MaybeAt(at),
            Value::Day(day) => Given::Day(day),
            Value::Json(json) => Given::Json(json),
            Value::MaybeJson(json) => Given::MaybeJson(json),
            Value::Object(members) => Given::Object(members@),
        }
    }
}

/// A text as a value.
pub fn as_text(text: &str) -> (value: Value)
    ensures
        value@ == Given::Text(text@),
{
    Value::Text(text.to_owned())
}

/// A text that may be absent as a value.
pub fn as_maybe_text(text: &Option<String>) -> (value: Value)
    ensures
        value@ == Given::MaybeText(opt_chars(*text)),
{
    match text {
        Some(inner) => Value::MaybeText(Some(inner.as_str().to_owned())),
        None => Value::MaybeText(None),
    }
}

/// A borrowed text that may be absent as a value.
pub fn as_maybe_str(text: Option<&str>) -> (value: Value)
    ensures
        value@ == Given::MaybeText(opt_str_chars(text)),
{
    match text {
        Some(inner) => Value::MaybeText(Some(inner.to_owned())),
        None => Value::MaybeText(None),
    }
}

/// Texts as a value.
pub fn as_texts(given: &Vec<String>) -> (value: Value)
    ensures
        value@ == Given::Texts(all_chars(given@)),
{
    let mut out: Vec<String> = Vec::new();
    let mut i: usize = 0;
    while i < given.len()
        invariant
            i <= given@.len(),
            out@.len() == i,
            forall|j: int| 0 <= j < i ==> (#[trigger] out@[j])@ == given@[j]@,
        decreases given@.len() - i,
    {
        out.push(given[i].as_str().to_owned());
        i += 1;
    }
    proof {
        assert(all_chars(out@) =~= all_chars(given@));
    }
    Value::Texts(out)
}

/// Fixed words as a value.
pub fn as_words(given: &Vec<&'static str>) -> (value: Value)
    ensures
        value@ == Given::Texts(Seq::new(given@.len(), |i: int| given@[i]@)),
{
    let mut out: Vec<String> = Vec::new();
    let mut i: usize = 0;
    while i < given.len()
        invariant
            i <= given@.len(),
            out@.len() == i,
            forall|j: int| 0 <= j < i ==> (#[trigger] out@[j])@ == given@[j]@,
        decreases given@.len() - i,
    {
        out.push(given[i].to_owned());
        i += 1;
    }
    proof {
        assert(all_chars(out@) =~= Seq::new(given@.len(), |i: int| given@[i]@));
    }
    Value::Texts(out)
}

/// Identifiers as a value.
pub fn as_ids(given: &Vec<Uuid>) -> (value: Value)
    ensures
        value@ == Given::Ids(given@),
{
    let mut out: Vec<Uuid> = Vec::new();
    let mut i: usize = 0;
    while i < given.len()
        invariant
            i <= given@.len(),
            out@ =~= given@.take(i as int),
        decreases given@.len() - i,
    {
        out.push(given[i]);
        i += 1;
    }
    proof {
        assert(given@.take(i as int) =~= given@);
    }
    Value::Ids(out)
}

/// A statement with numbered placeholders, and a value for each.
#[derive(Debug, PartialEq, Eq)]
pub struct Command {
    pub text: &'static str,
    pub values: Vec<Value>,
}

impl Command {
    /// What the values say, in the order of their placeholders.
    pub open spec fn given(self) -> Seq<Given> {
        Seq::new(self.values@.len(), |i: int| self.values@[i]@)
    }

    /// Whether this command is `text` with these values.
    pub open spec fn says(self, text: Seq<char>, given: Seq<Given>) -> bool {
        self.text@ == text && self.given() =~= given
    }

    /// The command with this text and these values.
    pub fn new(text: &'static str, values: Vec<Value>) -> (command: Command)
        ensures
            command.text@ == text@,
            command.values@ == values@,
    {
        Command { text, values }
    }
}

/// A value is given as it is, under its own type.
pub proof fn a_value_is_given_as_it_is(value: Value)
    ensures
        match value {
            Value::Id(id) => value@ == Given::Id(id),
            Value::MaybeId(id) => value@ == Given::MaybeId(id),
            Value::Ids(ids) => value@ == Given::Ids(ids@),
            Value::Text(text) => value@ == Given::Text(text@),
            Value::MaybeText(Some(text)) => value@ == Given::MaybeText(Some(text@)),
            Value::MaybeText(None) => value@ == Given::MaybeText(None),
            Value::Texts(texts) => value@ is Texts && value@->Texts_0.len() == texts@.len() && forall|i: int|
                0 <= i < texts@.len() ==> #[trigger] value@->Texts_0[i] == texts@[i]@,
            Value::Small(number) => value@ == Given::Small(number),
            Value::Whole(number) => value@ == Given::Whole(number),
            Value::MaybeWhole(number) => value@ == Given::MaybeWhole(number),
            Value::Wholes(numbers) => value@ == Given::Wholes(numbers@),
            Value::Int(number) => value@ == Given::Int(number),
            Value::MaybeInt(number) => value@ == Given::MaybeInt(number),
            Value::Flag(flag) => value@ == Given::Flag(flag),
            Value::MaybeFlag(flag) => value@ == Given::MaybeFlag(flag),
            Value::At(at) => value@ == Given::At(at),
            Value::MaybeAt(at) => value@ == Given::MaybeAt(at),
            Value::Day(day) => value@ == Given::Day(day),
            Value::Json(json) => value@ == Given::Json(json),
            Value::MaybeJson(json) => value@ == Given::MaybeJson(json),
            Value::Object(members) => value@ == Given::Object(members@),
        },
{
}

/// A command says one thing: its own text, and as many values as it holds, each in its place.
pub proof fn a_command_says_one_thing(command: Command, text: Seq<char>, given: Seq<Given>)
    ensures
        command.says(text, given) <==> {
            &&& command.text@ == text
            &&& command.values@.len() == given.len()
            &&& forall|i: int| 0 <= i < given.len() ==> (#[trigger] command.values@[i])@ == given[i]
        },
{
    if command.text@ == text && command.values@.len() == given.len() && (forall|i: int|
        0 <= i < given.len() ==> (#[trigger] command.values@[i])@ == given[i]) {
        assert(command.given() =~= given);
    }
    if command.says(text, given) {
        assert forall|i: int| 0 <= i < given.len() implies (#[trigger] command.values@[i])@ == given[i] by {
            assert(command.given()[i] == command.values@[i]@);
        }
    }
}

} // verus!
