use betterschool_sdk::decode::{
    classes_from_json, decode_classes, decode_schedule, decode_schools, schools_from_json,
    DecodeError,
};
use betterschool_sdk::encode::{school_to_json, schools_to_json};
use betterschool_sdk::json::JsonValue;
use betterschool_sdk::structure::School;

fn missing(r: Result<Vec<School>, DecodeError>) -> String {
    match r {
        Err(DecodeError::MissingField(f)) => f,
        other => panic!("expected a missing field, got {:?}", other),
    }
}

#[test]
fn schools_decode_in_order() {
    let schools = decode_schools(
        r#"[{"name":"Oslo VGS","schoolID":"1"},{"name":"Bergen VGS","schoolID":"2"}]"#,
    )
    .unwrap();
    assert_eq!(schools.len(), 2);
    assert_eq!(schools[0].name, "Oslo VGS");
    assert_eq!(schools[0].schoolID, "1");
    assert_eq!(schools[1].name, "Bergen VGS");
    assert_eq!(schools[1].schoolID, "2");
}

#[test]
fn empty_list_decodes_to_empty() {
    assert_eq!(decode_schools("[]").unwrap().len(), 0);
    assert_eq!(decode_classes(" [ ] ").unwrap().len(), 0);
}

#[test]
fn unknown_members_are_ignored() {
    let schools =
        decode_schools(r#"[{"extra":[1,2],"schoolID":"9","name":"X","n":null}]"#).unwrap();
    assert_eq!(schools[0].name, "X");
    assert_eq!(schools[0].schoolID, "9");
}

#[test]
fn missing_school_id_is_named() {
    assert_eq!(missing(decode_schools(r#"[{"name":"A"}]"#)), "schoolID");
}

#[test]
fn missing_school_id_in_a_later_element_fails_the_whole() {
    let r = decode_schools(r#"[{"name":"A","schoolID":"1"},{"name":"B"}]"#);
    assert_eq!(missing(r), "schoolID");
}

#[test]
fn first_failing_element_decides() {
    let r = decode_schools(r#"[{"schoolID":"1"},{"name":"B"}]"#);
    assert_eq!(missing(r), "name");
}

#[test]
fn wrong_type_is_named() {
    match decode_schools(r#"[{"name":"A","schoolID":7}]"#) {
        Err(DecodeError::WrongType(f)) => assert_eq!(f, "schoolID"),
        other => panic!("unexpected {:?}", other),
    }
}

#[test]
fn non_array_answer_is_rejected() {
    assert!(matches!(
        decode_schools(r#"{"name":"A","schoolID":"1"}"#),
        Err(DecodeError::ExpectedArray)
    ));
}

#[test]
fn non_object_element_is_rejected() {
    assert!(matches!(decode_classes("[\"245A\"]"), Err(DecodeError::ExpectedObject)));
}

#[test]
fn malformed_or_truncated_text_is_a_syntax_error() {
    assert!(matches!(
        decode_schools(r#"[{"name":"A","schoolID":"1"}"#),
        Err(DecodeError::Syntax(_))
    ));
    assert!(matches!(decode_schools(""), Err(DecodeError::Syntax(_))));
    assert!(matches!(decode_schools("[] []"), Err(DecodeError::Syntax(_))));
}

#[test]
fn classes_decode() {
    let classes = decode_classes(r#"[{"className":"245A","classID":"c1"}]"#).unwrap();
    assert_eq!(classes.len(), 1);
    assert_eq!(classes[0].className, "245A");
    assert_eq!(classes[0].classID, "c1");
}

#[test]
fn field_names_match_exactly() {
    let r = decode_classes(r#"[{"classname":"245A","classID":"c1"}]"#);
    match r {
        Err(DecodeError::MissingField(f)) => assert_eq!(f, "className"),
        other => panic!("unexpected {:?}", other),
    }
}

#[test]
fn schedule_decodes_nested() {
    let weeks = decode_schedule(
        r#"[{"weekNr":"42","days":[{"name":"Fredag","date":"Fri Oct 21 2022","classes":[{"date":"21. oktober 2022","time":"13:15-14:15","room":"553","name":"Naturfag","teacher":"T. Navn"}]},{"name":"Lørdag","date":"Sat Oct 22 2022","classes":[]}]}]"#,
    )
    .unwrap();
    assert_eq!(weeks.len(), 1);
    assert_eq!(weeks[0].weekNr, "42");
    assert_eq!(weeks[0].days.len(), 2);
    let day = &weeks[0].days[0];
    assert_eq!(day.name, "Fredag");
    assert_eq!(day.date, "Fri Oct 21 2022");
    assert_eq!(day.classes.len(), 1);
    assert_eq!(day.classes[0].date, "21. oktober 2022");
    assert_eq!(day.classes[0].time, "13:15-14:15");
    assert_eq!(day.classes[0].room, "553");
    assert_eq!(day.classes[0].name, "Naturfag");
    assert_eq!(day.classes[0].teacher, "T. Navn");
    assert_eq!(weeks[0].days[1].name, "Lørdag");
    assert_eq!(weeks[0].days[1].classes.len(), 0);
}

#[test]
fn schedule_nested_errors_surface() {
    let r = decode_schedule(
        r#"[{"weekNr":"42","days":[{"name":"Fredag","date":"d","classes":[{"date":"x","time":"t","room":"r","name":"n"}]}]}]"#,
    );
    match r {
        Err(DecodeError::MissingField(f)) => assert_eq!(f, "teacher"),
        other => panic!("unexpected {:?}", other),
    }
    let r = decode_schedule(r#"[{"weekNr":"42","days":"none"}]"#);
    match r {
        Err(DecodeError::WrongType(f)) => assert_eq!(f, "days"),
        other => panic!("unexpected {:?}", other),
    }
}

#[test]
fn schools_survive_a_round_trip() {
    let schools = vec![
        School { name: "Oslo VGS".to_string(), schoolID: "1".to_string() },
        School { name: "".to_string(), schoolID: "a/b".to_string() },
    ];
    let back = schools_from_json(&schools_to_json(&schools)).unwrap();
    assert_eq!(back.len(), 2);
    for (a, b) in schools.iter().zip(back.iter()) {
        assert_eq!(a.name, b.name);
        assert_eq!(a.schoolID, b.schoolID);
    }
}

#[test]
fn one_school_is_written_as_an_object() {
    let s = School { name: "N".to_string(), schoolID: "7".to_string() };
    match school_to_json(&s) {
        JsonValue::Object(m) => {
            assert_eq!(m.len(), 2);
            assert_eq!(m[0].0, "name");
            assert_eq!(m[1].0, "schoolID");
        }
        other => panic!("unexpected {:?}", other),
    }
    assert!(matches!(classes_from_json(&JsonValue::Null), Err(DecodeError::ExpectedArray)));
}

#[test]
fn escapes_in_the_answer_are_read() {
    let schools = decode_schools(r#"[{"name":"Bergen å \"VGS\"","schoolID":"a\/b"}]"#).unwrap();
    assert_eq!(schools[0].name, "Bergen å \"VGS\"");
    assert_eq!(schools[0].schoolID, "a/b");
}
