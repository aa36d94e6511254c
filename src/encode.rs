//! Encoding of schools into the JSON model, and what decoding makes of it.
use vstd::prelude::*;
use crate::decode::{array_spec, items_spec, member, school_spec, Decode, lemma_first_error_decides};
use crate::json::JsonValue;
use crate::structure::{School, SchoolView};

verus! {

/// `v` is the JSON object that writes the school `s`: its name under `name`,
/// then its id under `schoolID`.
pub open spec fn school_object(v: JsonValue, s: SchoolView) -> bool {
    &&& v is Object
    &&& v->Object_0@.len() == 2
    &&& v->Object_0@[0].0@ == "name"@
    &&& v->Object_0@[0].1 is Str
    &&& v->Object_0@[0].1->Str_0@ == s.name
    &&& v->Object_0@[1].0@ == "schoolID"@
    &&& v->Object_0@[1].1 is Str
    &&& v->Object_0@[1].1->Str_0@ == s.school_id
}

/// `v` is the JSON array that writes the schools `ss` in order.
pub open spec fn schools_array(v: JsonValue, ss: Seq<SchoolView>) -> bool {
    &&& v is Array
    &&& v->Array_0@.len() == ss.len()
    &&& forall|i: int| 0 <= i < ss.len() ==> #[trigger] school_object(v->Array_0@[i], ss[i])
}

/// Writes a school as a JSON object.
pub fn school_to_json(s: &School) -> (r: JsonValue)
    ensures
        school_object(r, s@),
{
    let mut members: Vec<(String, JsonValue)> = Vec::new();
    members.push(("name".to_owned(), JsonValue::Str(s.name.clone())));
    members.push(("schoolID".to_owned(), JsonValue::Str(s.schoolID.clone())));
    JsonValue::Object(members)
}

/// Writes a list of schools as a JSON array.
pub fn schools_to_json(schools: &Vec<School>) -> (r: JsonValue)
    ensures
        schools_array(r, schools@.map_values(|s: School| s@)),
{
    let mut items: Vec<JsonValue> = Vec::new();
    let mut i: usize = 0;
    while i < schools.len()
        invariant
            0 <= i <= schools@.len(),
            items@.len() == i,
            forall|j: int| 0 <= j < i ==> #[trigger] school_object(items@[j], schools@[j]@),
        decreases schools@.len() - i,
    {
        let item = school_to_json(&schools[i]);
        items.push(item);
        i = i + 1;
    }
    JsonValue::Array(items)
}

/// Decoding the JSON object that writes a school gives back that school.
pub proof fn lemma_school_round_trip(v: JsonValue, s: SchoolView)
    requires
        school_object(v, s),
    ensures
        school_spec(v) == Ok::<SchoolView, crate::decode::DecodeFault>(s),
{
    reveal_strlit("name");
    reveal_strlit("schoolID");
    let m = v->Object_0@;
    assert(m.drop_first()[0] == m[1]);
    assert(m[0].0@ != "schoolID"@) by {
        assert(m[0].0@[0] != "schoolID"@[0]);
    }
    assert(member(m, "name"@) == Some(m[0].1));
    assert(member(m.drop_first(), "schoolID"@) == Some(m[1].1));
    assert(member(m, "schoolID"@) == Some(m[1].1));
}

/// Decoding the JSON array that writes a list of schools gives back that
/// list, value for value and in order.
pub proof fn lemma_schools_round_trip(v: JsonValue, ss: Seq<SchoolView>)
    requires
        schools_array(v, ss),
    ensures
        array_spec::<School>(v) == Ok::<Seq<SchoolView>, crate::decode::DecodeFault>(ss),
{
    lemma_items_round_trip(v->Array_0@, ss);
}

proof fn lemma_items_round_trip(items: Seq<JsonValue>, ss: Seq<SchoolView>)
    requires
        items.len() == ss.len(),
        forall|i: int| 0 <= i < ss.len() ==> #[trigger] school_object(items[i], ss[i]),
    ensures
        items_spec::<School>(items) == Ok::<Seq<SchoolView>, crate::decode::DecodeFault>(ss),
    decreases items.len(),
{
    if items.len() > 0 {
        let n = items.len() - 1;
        assert(school_object(items[n], ss[n]));
        assert forall|i: int| 0 <= i < n implies #[trigger] school_object(items.drop_last()[i], ss.drop_last()[i]) by {
            assert(school_object(items[i], ss[i]));
        }
        lemma_items_round_trip(items.drop_last(), ss.drop_last());
        lemma_school_round_trip(items.last(), ss.last());
        assert(ss.drop_last().push(ss.last()) =~= ss);
    } else {
        assert(ss =~= Seq::<SchoolView>::empty());
    }
}

/// A list of schools in which one element is an object without a
/// `schoolID` member does not decode.
pub proof fn lemma_missing_school_id_rejected(v: JsonValue, k: int)
    requires
        v is Array,
        0 <= k < v->Array_0@.len(),
        v->Array_0@[k] is Object,
        member(v->Array_0@[k]->Object_0@, "schoolID"@) is None,
    ensures
        array_spec::<School>(v) is Err,
{
    let items = v->Array_0@;
    assert(items.take(k + 1).drop_last() =~= items.take(k));
    assert(items.take(k + 1).last() == items[k]);
    assert(<School as Decode>::decode_spec(items[k]) is Err);
    lemma_first_error_decides::<School>(items, k + 1);
}

} // verus!
