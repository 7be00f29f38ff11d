use jotpad::json::{find_member, Json, Number};

fn object(members: Vec<(&str, Json)>) -> Json {
    Json::Object(members.into_iter().map(|(name, value)| (name.to_string(), value)).collect())
}

#[test]
fn a_document_with_distinct_names_is_well_formed() {
    let doc = object(vec![
        ("a", Json::Null),
        ("b", Json::Array(vec![object(vec![("a", Json::Bool(true))]), Json::Number(Number::NegInt(-1))])),
        ("c", Json::Number(Number::Float("1.5".to_string()))),
    ]);
    assert!(doc.is_well_formed());
    assert!(Json::Null.is_well_formed());
    assert!(object(vec![]).is_well_formed());
    assert!(Json::Number(Number::PosInt(0)).is_well_formed());
}

#[test]
fn a_name_given_twice_is_not_well_formed() {
    assert!(!object(vec![("a", Json::Null), ("b", Json::Null), ("a", Json::Bool(true))])
        .is_well_formed());
    let nested = Json::Array(vec![object(vec![(
        "outer",
        object(vec![("x", Json::Null), ("x", Json::Null)]),
    )])]);
    assert!(!nested.is_well_formed());
}

#[test]
fn a_negative_integer_that_is_none_is_not_well_formed() {
    assert!(!Json::Number(Number::NegInt(0)).is_well_formed());
    assert!(!Json::Number(Number::NegInt(12)).is_well_formed());
    assert!(!object(vec![("n", Json::Number(Number::NegInt(1)))]).is_well_formed());
    assert!(Json::Number(Number::NegInt(-12)).is_well_formed());
}

#[test]
fn a_number_is_brought_into_its_one_form() {
    assert_eq!(Number::NegInt(12).normalized(), Number::PosInt(12));
    assert_eq!(Number::NegInt(0).normalized(), Number::PosInt(0));
    assert_eq!(Number::NegInt(i64::MAX).normalized(), Number::PosInt(9223372036854775807));
    assert_eq!(Number::NegInt(-12).normalized(), Number::NegInt(-12));
    assert_eq!(Number::NegInt(i64::MIN).normalized(), Number::NegInt(i64::MIN));
    assert_eq!(Number::PosInt(u64::MAX).normalized(), Number::PosInt(u64::MAX));
    assert_eq!(
        Number::Float("0.5".to_string()).normalized(),
        Number::Float("0.5".to_string())
    );
}

#[test]
fn a_member_is_found_at_its_first_place() {
    let members = vec![
        ("a".to_string(), Json::Null),
        ("b".to_string(), Json::Bool(true)),
        ("a".to_string(), Json::Bool(false)),
    ];
    assert_eq!(find_member(&members, &"a".to_string()), Some(0));
    assert_eq!(find_member(&members, &"b".to_string()), Some(1));
    assert_eq!(find_member(&members, &"c".to_string()), None);
    assert_eq!(find_member(&members, &"A".to_string()), None);
    assert_eq!(find_member(&Vec::new(), &"a".to_string()), None);
}

#[test]
fn null_is_told_from_the_rest() {
    assert!(Json::Null.is_null());
    assert!(!Json::Bool(false).is_null());
    assert!(!Json::String(String::new()).is_null());
    assert!(!Json::Array(vec![]).is_null());
    assert!(!object(vec![]).is_null());
}

#[test]
fn a_copy_is_equal_to_what_was_copied() {
    let doc = object(vec![
        ("a", Json::Array(vec![Json::Null, Json::String("x".to_string())])),
        ("b", object(vec![("n", Json::Number(Number::Float("2.5".to_string())))])),
    ]);
    assert_eq!(doc.clone(), doc);
}
