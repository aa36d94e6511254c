//! Decoding of the service's answers into typed values.
//!
//! Each answer must be one JSON value of the expected shape: an array of
//! objects whose members of interest are strings, or arrays of objects again.
//! Members are found by their exact name; members of other names are ignored.
//! The first element, and in it the first member in declaration order, that
//! does not fit decides the error; no partial result is ever returned.
//! The text is read as a whole by serde_json first, so a member written twice
//! counts with its last value, and a number out of serde_json's range is a
//! syntax error even in a member that is otherwise ignored.
use vstd::prelude::*;
use crate::json::{JsonValue, json_of, parse_json};
use crate::structure::{Class, ClassView, School, SchoolView, ScheduleClass, ScheduleClassView, ScheduleDay, ScheduleDayView, ScheduleWeek, ScheduleWeekView};

verus! {

/// Why an answer could not be decoded.
#[derive(Debug)]
pub enum DecodeError {
    /// The text is not one well-formed JSON value.
    Syntax(serde_json::Error),
    /// An array was expected where another value stands.
    ExpectedArray,
    /// An object was expected where another value stands.
    ExpectedObject,
    /// An object lacks the named member.
    MissingField(String),
    /// The named member holds a value of the wrong type.
    WrongType(String),
}

/// The view of a [`DecodeError`].
pub enum DecodeFault {
    Syntax,
    ExpectedArray,
    ExpectedObject,
    MissingField(Seq<char>),
    WrongType(Seq<char>),
}

impl View for DecodeError {
    type V = DecodeFault;

    open spec fn view(&self) -> DecodeFault {
        match self {
            DecodeError::Syntax(_) => DecodeFault::Syntax,
            DecodeError::ExpectedArray => DecodeFault::ExpectedArray,
            DecodeError::ExpectedObject => DecodeFault::ExpectedObject,
            DecodeError::MissingField(f) => DecodeFault::MissingField(f@),
            DecodeError::WrongType(f) => DecodeFault::WrongType(f@),
        }
    }
}

/// The view of a decoding result.
pub open spec fn outcome<T: View>(r: Result<T, DecodeError>) -> Result<T::V, DecodeFault> {
    match r {
        Ok(x) => Ok(x@),
        Err(e) => Err(e@),
    }
}

/// The view of the result of decoding a list.
pub open spec fn list_outcome<T: View>(r: Result<Vec<T>, DecodeError>) -> Result<Seq<T::V>, DecodeFault> {
    match r {
        Ok(xs) => Ok(xs@.map_values(|x: T| x@)),
        Err(e) => Err(e@),
    }
}

/// The value of the first member named `key`, if any.
pub open spec fn member(entries: Seq<(String, JsonValue)>, key: Seq<char>) -> Option<JsonValue>
    decreases entries.len(),
{
    if entries.len() == 0 {
        None
    } else if entries[0].0@ == key {
        Some(entries[0].1)
    } else {
        member(entries.drop_first(), key)
    }
}

/// The string that the member `key` holds.
pub open spec fn string_member(entries: Seq<(String, JsonValue)>, key: Seq<char>) -> Result<Seq<char>, DecodeFault> {
    match member(entries, key) {
        None => Err(DecodeFault::MissingField(key)),
        Some(JsonValue::Str(s)) => Ok(s@),
        Some(_) => Err(DecodeFault::WrongType(key)),
    }
}

/// A type that is decoded from one JSON value.
pub trait Decode: Sized + View {
    /// What decoding `v` gives.
    spec fn decode_spec(v: JsonValue) -> Result<Self::V, DecodeFault>;

    fn decode(v: &JsonValue) -> (r: Result<Self, DecodeError>)
        ensures
            outcome(r) == Self::decode_spec(*v),
    ;
}

/// What decoding each of `items` as a `T` gives: all of them, or the error
/// of the first that fails.
pub open spec fn items_spec<T: Decode>(items: Seq<JsonValue>) -> Result<Seq<T::V>, DecodeFault>
    decreases items.len(),
{
    if items.len() == 0 {
        Ok(Seq::empty())
    } else {
        match items_spec::<T>(items.drop_last()) {
            Err(e) => Err(e),
            Ok(xs) => match T::decode_spec(items.last()) {
                Err(e) => Err(e),
                Ok(x) => Ok(xs.push(x)),
            },
        }
    }
}

/// What decoding `v` as an array of `T` gives.
pub open spec fn array_spec<T: Decode>(v: JsonValue) -> Result<Seq<T::V>, DecodeFault> {
    match v {
        JsonValue::Array(items) => items_spec::<T>(items@),
        _ => Err(DecodeFault::ExpectedArray),
    }
}

/// What decoding the member `key` as an array of `T` gives.
pub open spec fn list_member<T: Decode>(entries: Seq<(String, JsonValue)>, key: Seq<char>) -> Result<Seq<T::V>, DecodeFault> {
    match member(entries, key) {
        None => Err(DecodeFault::MissingField(key)),
        Some(JsonValue::Array(items)) => items_spec::<T>(items@),
        Some(_) => Err(DecodeFault::WrongType(key)),
    }
}

/// The index of the first member named `key`.
fn find_member(entries: &Vec<(String, JsonValue)>, key: &str) -> (r: Option<usize>)
    ensures
        match r {
            Some(i) => i < entries@.len() && member(entries@, key@) == Some(entries@[i as int].1),
            None => member(entries@, key@) is None,
        },
{
    let k = key.to_owned();
    let mut i: usize = 0;
    assert(entries@.skip(0) =~= entries@);
    while i < entries.len()
        invariant
            0 <= i <= entries@.len(),
            k@ == key@,
            member(entries@, key@) == member(entries@.skip(i as int), key@),
        decreases entries@.len() - i,
    {
        assert(entries@.skip(i as int).drop_first() =~= entries@.skip(i as int + 1));
        assert(entries@.skip(i as int)[0] == entries@[i as int]);
        if entries[i].0 == k {
            return Some(i);
        }
        i = i + 1;
    }
    assert(entries@.skip(i as int).len() == 0);
    None
}

/// Reads the string that the member `key` holds.
fn string_field(entries: &Vec<(String, JsonValue)>, key: &str) -> (r: Result<String, DecodeError>)
    ensures
        match r {
            Ok(s) => string_member(entries@, key@) == Ok::<Seq<char>, DecodeFault>(s@),
            Err(e) => string_member(entries@, key@) == Err::<Seq<char>, DecodeFault>(e@),
        },
{
    match find_member(entries, key) {
        None => Err(DecodeError::MissingField(key.to_owned())),
        Some(i) => match &entries[i].1 {
            JsonValue::Str(s) => Ok(s.clone()),
            _ => Err(DecodeError::WrongType(key.to_owned())),
        },
    }
}

/// Once a prefix of the items fails, the whole fails with the same error.
pub(crate) proof fn lemma_first_error_decides<T: Decode>(items: Seq<JsonValue>, n: int)
    requires
        0 <= n <= items.len(),
        items_spec::<T>(items.take(n)) is Err,
    ensures
        items_spec::<T>(items) == items_spec::<T>(items.take(n)),
    decreases items.len() - n,
{
    if n < items.len() {
        assert(items.take(n + 1).drop_last() =~= items.take(n));
        lemma_first_error_decides::<T>(items, n + 1);
    } else {
        assert(items.take(n) =~= items);
    }
}

/// Decodes each of `items` as a `T`.
fn decode_items<T: Decode>(items: &Vec<JsonValue>) -> (r: Result<Vec<T>, DecodeError>)
    ensures
        list_outcome(r) == items_spec::<T>(items@),
{
    let mut out: Vec<T> = Vec::new();
    let mut i: usize = 0;
    assert(items@.take(0) =~= Seq::<JsonValue>::empty());
    assert(out@.map_values(|x: T| x@) =~= Seq::<T::V>::empty());
    while i < items.len()
        invariant
            0 <= i <= items@.len(),
            items_spec::<T>(items@.take(i as int)) == Ok::<Seq<T::V>, DecodeFault>(out@.map_values(|x: T| x@)),
        decreases items@.len() - i,
    {
        assert(items@.take(i as int + 1).drop_last() =~= items@.take(i as int));
        assert(items@.take(i as int + 1).last() == items@[i as int]);
        match T::decode(&items[i]) {
            Err(e) => {
                proof {
                    lemma_first_error_decides::<T>(items@, i as int + 1);
                }
                return Err(e);
            },
            Ok(x) => {
                let ghost before = out@;
                out.push(x);
                assert(out@.map_values(|x: T| x@) =~= before.map_values(|x: T| x@).push(x@));
            },
        }
        i = i + 1;
    }
    assert(items@.take(i as int) =~= items@);
    Ok(out)
}

/// Decodes `v` as an array of `T`.
pub fn decode_array<T: Decode>(v: &JsonValue) -> (r: Result<Vec<T>, DecodeError>)
    ensures
        list_outcome(r) == array_spec::<T>(*v),
{
    match v {
        JsonValue::Array(items) => decode_items(items),
        _ => Err(DecodeError::ExpectedArray),
    }
}

/// Decodes the member `key` as an array of `T`.
fn list_field<T: Decode>(entries: &Vec<(String, JsonValue)>, key: &str) -> (r: Result<Vec<T>, DecodeError>)
    ensures
        list_outcome(r) == list_member::<T>(entries@, key@),
{
    match find_member(entries, key) {
        None => Err(DecodeError::MissingField(key.to_owned())),
        Some(i) => match &entries[i].1 {
            JsonValue::Array(items) => decode_items(items),
            _ => Err(DecodeError::WrongType(key.to_owned())),
        },
    }
}


/// What decoding a whole answer as an array of `T` gives.
pub open spec fn body_spec<T: Decode>(body: Seq<char>) -> Result<Seq<T::V>, DecodeFault> {
    match json_of(body) {
        None => Err(DecodeFault::Syntax),
        Some(v) => array_spec::<T>(v),
    }
}

/// Reads a whole answer and decodes it as an array of `T`.
fn decode_body<T: Decode>(body: &str) -> (r: Result<Vec<T>, DecodeError>)
    ensures
        list_outcome(r) == body_spec::<T>(body@),
{
    match parse_json(body) {
        Err(e) => Err(DecodeError::Syntax(e)),
        Ok(v) => decode_array(&v),
    }
}

pub open spec fn school_spec(v: JsonValue) -> Result<SchoolView, DecodeFault> {
    match v {
        JsonValue::Object(m) => match string_member(m@, "name"@) {
            Err(e) => Err(e),
            Ok(name) => match string_member(m@, "schoolID"@) {
                Err(e) => Err(e),
                Ok(school_id) => Ok(SchoolView { name, school_id }),
            },
        },
        _ => Err(DecodeFault::ExpectedObject),
    }
}

pub open spec fn class_spec(v: JsonValue) -> Result<ClassView, DecodeFault> {
    match v {
        JsonValue::Object(m) => match string_member(m@, "className"@) {
            Err(e) => Err(e),
            Ok(class_name) => match string_member(m@, "classID"@) {
                Err(e) => Err(e),
                Ok(class_id) => Ok(ClassView { class_name, class_id }),
            },
        },
        _ => Err(DecodeFault::ExpectedObject),
    }
}

pub open spec fn lesson_spec(v: JsonValue) -> Result<ScheduleClassView, DecodeFault> {
    match v {
        JsonValue::Object(m) => match string_member(m@, "date"@) {
            Err(e) => Err(e),
            Ok(date) => match string_member(m@, "time"@) {
                Err(e) => Err(e),
                Ok(time) => match string_member(m@, "room"@) {
                    Err(e) => Err(e),
                    Ok(room) => match string_member(m@, "name"@) {
                        Err(e) => Err(e),
                        Ok(name) => match string_member(m@, "teacher"@) {
                            Err(e) => Err(e),
                            Ok(teacher) => Ok(ScheduleClassView { date, time, room, name, teacher }),
                        },
                    },
                },
            },
        },
        _ => Err(DecodeFault::ExpectedObject),
    }
}

pub open spec fn day_spec(v: JsonValue) -> Result<ScheduleDayView, DecodeFault> {
    match v {
        JsonValue::Object(m) => match string_member(m@, "name"@) {
            Err(e) => Err(e),
            Ok(name) => match string_member(m@, "date"@) {
                Err(e) => Err(e),
                Ok(date) => match list_member::<ScheduleClass>(m@, "classes"@) {
                    Err(e) => Err(e),
                    Ok(classes) => Ok(ScheduleDayView { name, date, classes }),
                },
            },
        },
        _ => Err(DecodeFault::ExpectedObject),
    }
}

pub open spec fn week_spec(v: JsonValue) -> Result<ScheduleWeekView, DecodeFault> {
    match v {
        JsonValue::Object(m) => match string_member(m@, "weekNr"@) {
            Err(e) => Err(e),
            Ok(week_nr) => match list_member::<ScheduleDay>(m@, "days"@) {
                Err(e) => Err(e),
                Ok(days) => Ok(ScheduleWeekView { week_nr, days }),
            },
        },
        _ => Err(DecodeFault::ExpectedObject),
    }
}

impl Decode for School {
    open spec fn decode_spec(v: JsonValue) -> Result<SchoolView, DecodeFault> {
        school_spec(v)
    }

    fn decode(v: &JsonValue) -> (r: Result<School, DecodeError>) {
        match v {
            JsonValue::Object(m) => {
                let name = match string_field(m, "name") {
                    Ok(s) => s,
                    Err(e) => return Err(e),
                };
                let school_id = match string_field(m, "schoolID") {
                    Ok(s) => s,
                    Err(e) => return Err(e),
                };
                Ok(School { name, schoolID: school_id })
            },
            _ => Err(DecodeError::ExpectedObject),
        }
    }
}

impl Decode for Class {
    open spec fn decode_spec(v: JsonValue) -> Result<ClassView, DecodeFault> {
        class_spec(v)
    }

    fn decode(v: &JsonValue) -> (r: Result<Class, DecodeError>) {
        match v {
            JsonValue::Object(m) => {
                let class_name = match string_field(m, "className") {
                    Ok(s) => s,
                    Err(e) => return Err(e),
                };
                let class_id = match string_field(m, "classID") {
                    Ok(s) => s,
                    Err(e) => return Err(e),
                };
                Ok(Class { className: class_name, classID: class_id })
            },
            _ => Err(DecodeError::ExpectedObject),
        }
    }
}

impl Decode for ScheduleClass {
    open spec fn decode_spec(v: JsonValue) -> Result<ScheduleClassView, DecodeFault> {
        lesson_spec(v)
    }

    fn decode(v: &JsonValue) -> (r: Result<ScheduleClass, DecodeError>) {
        match v {
            JsonValue::Object(m) => {
                let date = match string_field(m, "date") {
                    Ok(s) => s,
                    Err(e) => return Err(e),
                };
                let time = match string_field(m, "time") {
                    Ok(s) => s,
                    Err(e) => return Err(e),
                };
                let room = match string_field(m, "room") {
                    Ok(s) => s,
                    Err(e) => return Err(e),
                };
                let name = match string_field(m, "name") {
                    Ok(s) => s,
                    Err(e) => return Err(e),
                };
                let teacher = match string_field(m, "teacher") {
                    Ok(s) => s,
                    Err(e) => return Err(e),
                };
                Ok(ScheduleClass { date, time, room, name, teacher })
            },
            _ => Err(DecodeError::ExpectedObject),
        }
    }
}

impl Decode for ScheduleDay {
    open spec fn decode_spec(v: JsonValue) -> Result<ScheduleDayView, DecodeFault> {
        day_spec(v)
    }

    fn decode(v: &JsonValue) -> (r: Result<ScheduleDay, DecodeError>) {
        match v {
            JsonValue::Object(m) => {
                let name = match string_field(m, "name") {
                    Ok(s) => s,
                    Err(e) => return Err(e),
                };
                let date = match string_field(m, "date") {
                    Ok(s) => s,
                    Err(e) => return Err(e),
                };
                let classes = match list_field::<ScheduleClass>(m, "classes") {
                    Ok(c) => c,
                    Err(e) => return Err(e),
                };
                Ok(ScheduleDay { name, date, classes })
            },
            _ => Err(DecodeError::ExpectedObject),
        }
    }
}

impl Decode for ScheduleWeek {
    open spec fn decode_spec(v: JsonValue) -> Result<ScheduleWeekView, DecodeFault> {
        week_spec(v)
    }

    fn decode(v: &JsonValue) -> (r: Result<ScheduleWeek, DecodeError>) {
        match v {
            JsonValue::Object(m) => {
                let week_nr = match string_field(m, "weekNr") {
                    Ok(s) => s,
                    Err(e) => return Err(e),
                };
                let days = match list_field::<ScheduleDay>(m, "days") {
                    Ok(d) => d,
                    Err(e) => return Err(e),
                };
                Ok(ScheduleWeek { weekNr: week_nr, days })
            },
            _ => Err(DecodeError::ExpectedObject),
        }
    }
}

/// Decodes a parsed list of schools.
pub fn schools_from_json(v: &JsonValue) -> (r: Result<Vec<School>, DecodeError>)
    ensures
        list_outcome(r) == array_spec::<School>(*v),
{
    decode_array(v)
}

/// Decodes a parsed list of classes.
pub fn classes_from_json(v: &JsonValue) -> (r: Result<Vec<Class>, DecodeError>)
    ensures
        list_outcome(r) == array_spec::<Class>(*v),
{
    decode_array(v)
}

/// Decodes a parsed schedule, one element per week.
pub fn schedule_from_json(v: &JsonValue) -> (r: Result<Vec<ScheduleWeek>, DecodeError>)
    ensures
        list_outcome(r) == array_spec::<ScheduleWeek>(*v),
{
    decode_array(v)
}

/// Decodes the body of an answer to the list of schools, whatever the
/// answer's status code was.
pub fn decode_schools(body: &str) -> (r: Result<Vec<School>, DecodeError>)
    ensures
        list_outcome(r) == body_spec::<School>(body@),
{
    decode_body(body)
}

/// Decodes the body of an answer to the list of a school's classes.
pub fn decode_classes(body: &str) -> (r: Result<Vec<Class>, DecodeError>)
    ensures
        list_outcome(r) == body_spec::<Class>(body@),
{
    decode_body(body)
}

/// Decodes the body of an answer to a class's schedule.
pub fn decode_schedule(body: &str) -> (r: Result<Vec<ScheduleWeek>, DecodeError>)
    ensures
        list_outcome(r) == body_spec::<ScheduleWeek>(body@),
{
    decode_body(body)
}

} // verus!
