use settings_model::erased::TypeErasedModel;
use settings_model::error::BottlerocketSettingError;
use settings_model::example::{DependentSettings, ExampleSettings};
use settings_model::model::{BottlerocketSetting, GenerateResult};
use settings_model::structured::StructuredValue;

fn example_value(name: &str, favorite_number: i64) -> StructuredValue {
    StructuredValue::Object(vec![
        ("name".to_string(), StructuredValue::Text(name.to_string())),
        ("favorite_number".to_string(), StructuredValue::Int(favorite_number)),
    ])
}

fn dependent_value(derived: i64) -> StructuredValue {
    StructuredValue::Object(vec![(
        "derived".to_string(),
        StructuredValue::Int(derived),
    )])
}

#[test]
fn erased_version_matches_the_model() {
    let bridge = BottlerocketSetting::<ExampleSettings>::model();
    assert_eq!(bridge.get_version(), "v1");
    let bridge = BottlerocketSetting::<DependentSettings>::model();
    assert_eq!(bridge.get_version(), "v2");
}

#[test]
fn set_with_no_current_value_persists_the_target() {
    let bridge = BottlerocketSetting::<ExampleSettings>::model();
    let r = bridge.set(None, example_value("a", 3));
    assert_eq!(r, Ok(example_value("a", 3)));
}

#[test]
fn set_with_current_value_persists_the_target() {
    let bridge = BottlerocketSetting::<ExampleSettings>::model();
    let r = bridge.set(Some(example_value("old", 1)), example_value("new", 2));
    assert_eq!(r, Ok(example_value("new", 2)));
}

#[test]
fn generate_completes_with_the_domain_default() {
    let bridge = BottlerocketSetting::<ExampleSettings>::model();
    let r = bridge.generate(None, None);
    assert_eq!(r, Ok(GenerateResult::Complete(example_value("", 0))));
}

#[test]
fn validate_accepts_a_well_formed_value() {
    let bridge = BottlerocketSetting::<ExampleSettings>::model();
    let r = bridge.validate(example_value("a", 3), None);
    assert_eq!(r, Ok(true));
}

#[test]
fn generate_needs_data_until_the_dependency_resolves() {
    let bridge = BottlerocketSetting::<DependentSettings>::model();

    // The dependency snapshot is there, but not yet the data this model needs.
    let early_deps = StructuredValue::Object(vec![(
        "other".to_string(),
        StructuredValue::Object(vec![("x".to_string(), StructuredValue::Int(1))]),
    )]);
    let first = bridge.generate(None, Some(early_deps));
    assert_eq!(first, Ok(GenerateResult::NeedsData(None)));

    // Once the dependency has generated its value, generation completes.
    let resolved_deps = StructuredValue::Object(vec![(
        "source".to_string(),
        StructuredValue::Int(7),
    )]);
    let second = bridge.generate(None, Some(resolved_deps));
    assert_eq!(second, Ok(GenerateResult::Complete(dependent_value(7))));
}

#[test]
fn generate_is_deterministic_across_retries() {
    let bridge = BottlerocketSetting::<DependentSettings>::model();
    let deps = || {
        Some(StructuredValue::Object(vec![(
            "source".to_string(),
            StructuredValue::Int(11),
        )]))
    };
    let first = bridge.generate(None, deps());
    let second = bridge.generate(None, deps());
    assert_eq!(first, second);
    assert_eq!(first, Ok(GenerateResult::Complete(dependent_value(11))));
}

#[test]
fn validate_false_is_a_verdict_not_an_error() {
    let bridge = BottlerocketSetting::<DependentSettings>::model();
    let r = bridge.validate(dependent_value(-1), None);
    assert_eq!(r, Ok(false));
}

#[test]
fn validate_domain_fault_is_a_validate_setting_error() {
    let bridge = BottlerocketSetting::<DependentSettings>::model();
    let r = bridge.validate(dependent_value(1), Some(StructuredValue::Int(1)));
    match r {
        Err(BottlerocketSettingError::ValidateSetting { version, source }) => {
            assert_eq!(version, "v2");
            assert_eq!(source, "validated settings snapshot is not an object");
        }
        other => panic!("expected a ValidateSetting error, got {:?}", other),
    }
}

#[test]
fn malformed_set_target_is_reported_with_the_value() {
    let bridge = BottlerocketSetting::<ExampleSettings>::model();
    let r = bridge.set(None, StructuredValue::Int(3));
    match r {
        Err(BottlerocketSettingError::DeserializeInput { input_type, input, version, .. }) => {
            assert_eq!(input_type, "target");
            assert_eq!(input, StructuredValue::Int(3));
            assert_eq!(version, "v1");
        }
        other => panic!("expected a DeserializeInput error, got {:?}", other),
    }
}

#[test]
fn malformed_validate_value_is_reported_with_the_value() {
    let bridge = BottlerocketSetting::<ExampleSettings>::model();
    let r = bridge.validate(StructuredValue::Bool(true), None);
    match r {
        Err(BottlerocketSettingError::DeserializeInput { input_type, input, version, .. }) => {
            assert_eq!(input_type, "value");
            assert_eq!(input, StructuredValue::Bool(true));
            assert_eq!(version, "v1");
        }
        other => panic!("expected a DeserializeInput error, got {:?}", other),
    }
}

#[test]
fn malformed_current_value_is_reported_with_the_value() {
    let bridge = BottlerocketSetting::<ExampleSettings>::model();
    let r = bridge.set(Some(StructuredValue::Bool(true)), example_value("a", 3));
    match r {
        Err(BottlerocketSettingError::DeserializeInput { input_type, input, version, .. }) => {
            assert_eq!(input_type, "current");
            assert_eq!(input, StructuredValue::Bool(true));
            assert_eq!(version, "v1");
        }
        other => panic!("expected a DeserializeInput error, got {:?}", other),
    }
}

#[test]
fn malformed_partial_is_reported_with_the_value() {
    let bridge = BottlerocketSetting::<ExampleSettings>::model();
    let r = bridge.generate(Some(StructuredValue::Bool(true)), None);
    match r {
        Err(BottlerocketSettingError::DeserializeInput { input_type, input, version, .. }) => {
            assert_eq!(input_type, "existing_partial");
            assert_eq!(input, StructuredValue::Bool(true));
            assert_eq!(version, "v1");
        }
        other => panic!("expected a DeserializeInput error, got {:?}", other),
    }
}

#[test]
fn set_domain_fault_is_a_set_setting_error() {
    let bridge = BottlerocketSetting::<DependentSettings>::model();
    let r = bridge.set(None, dependent_value(-5));
    match r {
        Err(BottlerocketSettingError::SetSetting { version, source }) => {
            assert_eq!(version, "v2");
            assert_eq!(source, "derived value must not be negative");
        }
        other => panic!("expected a SetSetting error, got {:?}", other),
    }
}

#[test]
fn generate_domain_fault_is_a_generate_setting_error() {
    let bridge = BottlerocketSetting::<DependentSettings>::model();
    let r = bridge.generate(None, Some(StructuredValue::Text("nope".to_string())));
    match r {
        Err(BottlerocketSettingError::GenerateSetting { version, source }) => {
            assert_eq!(version, "v2");
            assert_eq!(source, "dependency snapshot is not an object");
        }
        other => panic!("expected a GenerateSetting error, got {:?}", other),
    }
}

#[test]
fn every_error_carries_its_version() {
    let bridge = BottlerocketSetting::<ExampleSettings>::model();
    let err = bridge.set(None, StructuredValue::Null).unwrap_err();
    assert_eq!(err.version(), "v1");
    let err = bridge.generate(Some(StructuredValue::Int(0)), None).unwrap_err();
    assert_eq!(err.version(), "v1");
}

#[test]
fn set_accepts_permuted_object_fields() {
    // A JSON object's member order is not significant: the same value with
    // its fields in the other order must decode and succeed.
    let permuted = StructuredValue::Object(vec![
        ("favorite_number".to_string(), StructuredValue::Int(3)),
        ("name".to_string(), StructuredValue::Text("a".to_string())),
    ]);
    let bridge = BottlerocketSetting::<ExampleSettings>::model();
    let r = bridge.set(None, permuted);
    // The persisted value is re-encoded in the model's own field order.
    assert_eq!(r, Ok(example_value("a", 3)));
}
