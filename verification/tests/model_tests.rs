use settings_model::example::{DependentSettings, ExampleSettings};
use settings_model::model::{encode_decode_round_trip, GenerateResult, SettingsModel, StructuredData};
use settings_model::structured::StructuredValue;

fn example_value(name: &str, favorite_number: i64) -> StructuredValue {
    StructuredValue::Object(vec![
        ("name".to_string(), StructuredValue::Text(name.to_string())),
        ("favorite_number".to_string(), StructuredValue::Int(favorite_number)),
    ])
}

fn dependent_value(derived: i64) -> StructuredValue {
    StructuredValue::Object(vec![(
        "derived".to_string(),
        StructuredValue::Int(derived),
    )])
}

#[test]
fn round_trip_example_settings() {
    let x = ExampleSettings { name: "a".to_string(), favorite_number: 3 };
    let encoded = x.to_structured();
    assert_eq!(encoded, example_value("a", 3));
    let decoded = ExampleSettings::from_structured(&encoded);
    assert_eq!(decoded, Some(ExampleSettings { name: "a".to_string(), favorite_number: 3 }));
}

#[test]
fn round_trip_generic_entry_point() {
    let x = ExampleSettings { name: "hello".to_string(), favorite_number: -42 };
    let y = encode_decode_round_trip(&x);
    assert_eq!(y, Some(ExampleSettings { name: "hello".to_string(), favorite_number: -42 }));

    let d = DependentSettings { derived: 9 };
    let z = encode_decode_round_trip(&d);
    assert_eq!(z, Some(DependentSettings { derived: 9 }));
}

#[test]
fn round_trip_dependent_settings() {
    let d = DependentSettings { derived: -7 };
    let encoded = d.to_structured();
    assert_eq!(encoded, dependent_value(-7));
    assert_eq!(
        DependentSettings::from_structured(&encoded),
        Some(DependentSettings { derived: -7 })
    );
}

#[test]
fn from_structured_rejects_scalars() {
    assert_eq!(ExampleSettings::from_structured(&StructuredValue::Int(3)), None);
    assert_eq!(ExampleSettings::from_structured(&StructuredValue::Null), None);
    assert_eq!(DependentSettings::from_structured(&StructuredValue::Bool(true)), None);
}

#[test]
fn from_structured_rejects_wrong_shape() {
    // Wrong key.
    let wrong_key = StructuredValue::Object(vec![(
        "nickname".to_string(),
        StructuredValue::Text("a".to_string()),
    )]);
    assert_eq!(DependentSettings::from_structured(&wrong_key), None);

    // Wrong field count.
    let too_few = StructuredValue::Object(vec![(
        "name".to_string(),
        StructuredValue::Text("a".to_string()),
    )]);
    assert_eq!(ExampleSettings::from_structured(&too_few), None);

    // Wrong payload type under the right key.
    let wrong_type = StructuredValue::Object(vec![(
        "derived".to_string(),
        StructuredValue::Text("7".to_string()),
    )]);
    assert_eq!(DependentSettings::from_structured(&wrong_type), None);
}

#[test]
fn get_version_reports_the_tag() {
    assert_eq!(ExampleSettings::get_version(), "v1");
    assert_eq!(DependentSettings::get_version(), "v2");
}

#[test]
fn serialize_complete_encodes_the_value() {
    let g: GenerateResult<ExampleSettings, ExampleSettings> =
        GenerateResult::Complete(ExampleSettings { name: "a".to_string(), favorite_number: 3 });
    assert_eq!(g.serialize(), GenerateResult::Complete(example_value("a", 3)));
}

#[test]
fn serialize_partial_encodes_the_partial() {
    let g: GenerateResult<ExampleSettings, ExampleSettings> = GenerateResult::NeedsData(Some(
        ExampleSettings { name: "b".to_string(), favorite_number: 1 },
    ));
    assert_eq!(g.serialize(), GenerateResult::NeedsData(Some(example_value("b", 1))));
}

#[test]
fn serialize_keeps_absent_partial_absent() {
    let g: GenerateResult<ExampleSettings, ExampleSettings> = GenerateResult::NeedsData(None);
    assert_eq!(g.serialize(), GenerateResult::NeedsData(None));
}

#[test]
fn get_field_finds_first_match() {
    let v = StructuredValue::Object(vec![
        ("a".to_string(), StructuredValue::Int(1)),
        ("b".to_string(), StructuredValue::Int(2)),
        ("a".to_string(), StructuredValue::Int(3)),
    ]);
    assert_eq!(v.get_field(&"a".to_string()), Some(&StructuredValue::Int(1)));
    assert_eq!(v.get_field(&"b".to_string()), Some(&StructuredValue::Int(2)));
    assert_eq!(v.get_field(&"c".to_string()), None);
    assert_eq!(StructuredValue::Null.get_field(&"a".to_string()), None);
}

#[test]
fn from_structured_ignores_member_order_and_unknown_members() {
    // Member order in an object is not significant, and unknown members are
    // ignored, as a map-shaped payload demands.
    let permuted = StructuredValue::Object(vec![
        ("favorite_number".to_string(), StructuredValue::Int(3)),
        ("ignored".to_string(), StructuredValue::Null),
        ("name".to_string(), StructuredValue::Text("a".to_string())),
    ]);
    assert_eq!(
        ExampleSettings::from_structured(&permuted),
        Some(ExampleSettings { name: "a".to_string(), favorite_number: 3 })
    );
}
