//! Example settings models: small domains exercising the typed contract.
//!
//! `ExampleSettings` is a self-contained model whose defaults need no other
//! settings; `DependentSettings` derives its value from data generated by a
//! declared dependency and keeps asking for another cycle until that data
//! appears.

use vstd::prelude::*;

use crate::model::{GenerateResult, SettingsModel, StructuredData};
use crate::structured::{
    field_lookup_from, fields_model, lemma_fields_model, value_lookup, StructuredValue,
    ValueModel,
};

verus! {

/// A settings value with a name and a favorite number.
#[derive(Debug, PartialEq, Eq)]
pub struct ExampleSettings {
    pub name: String,
    pub favorite_number: i64,
}

/// The mathematical model of an [`ExampleSettings`] value.
pub struct ExampleSettingsView {
    pub name: Seq<char>,
    pub favorite_number: i64,
}

impl View for ExampleSettings {
    type V = ExampleSettingsView;

    open spec fn view(&self) -> ExampleSettingsView {
        ExampleSettingsView { name: self.name@, favorite_number: self.favorite_number }
    }
}

impl StructuredData for ExampleSettings {
    open spec fn encode_model(m: ExampleSettingsView) -> ValueModel {
        ValueModel::Object(
            seq![
                ("name"@, ValueModel::Text(m.name)),
                ("favorite_number"@, ValueModel::Int(m.favorite_number as int)),
            ],
        )
    }

    /// Decoding goes by key lookup, so an object's member order does not
    /// matter and unknown members are ignored.
    open spec fn decode_model(v: ValueModel) -> Option<ExampleSettingsView> {
        match (value_lookup(v, "name"@), value_lookup(v, "favorite_number"@)) {
            (Some(ValueModel::Text(name)), Some(ValueModel::Int(n))) => {
                if i64::MIN <= n <= i64::MAX {
                    Some(ExampleSettingsView { name, favorite_number: n as i64 })
                } else {
                    None
                }
            },
            _ => None,
        }
    }

    proof fn lemma_round_trip(m: ExampleSettingsView) {
        reveal_strlit("name");
        reveal_strlit("favorite_number");
        let fields = Self::encode_model(m)->Object_0;
        assert("name"@.len() == 4);
        assert("favorite_number"@.len() == 15);
        assert("name"@ != "favorite_number"@);
        assert(value_lookup(Self::encode_model(m), "name"@) == Some(ValueModel::Text(m.name)));
        assert(field_lookup_from(fields, "favorite_number"@, 0) == field_lookup_from(
            fields,
            "favorite_number"@,
            1,
        ));
        assert(value_lookup(Self::encode_model(m), "favorite_number"@) == Some(
            ValueModel::Int(m.favorite_number as int),
        ));
    }

    fn to_structured(&self) -> (r: StructuredValue) {
        broadcast use lemma_fields_model;

        let mut fields: Vec<(String, StructuredValue)> = Vec::new();
        fields.push(("name".to_owned(), StructuredValue::Text(self.name.clone())));
        fields.push(("favorite_number".to_owned(), StructuredValue::Int(self.favorite_number)));
        let r = StructuredValue::Object(fields);
        proof {
            let fm = fields_model(fields@);
            assert(fm[0] == (fields@[0].0@, fields@[0].1.model()));
            assert(fm[1] == (fields@[1].0@, fields@[1].1.model()));
            assert(fm =~= Self::encode_model(self@)->Object_0);
        }
        r
    }

    fn from_structured(v: &StructuredValue) -> (r: Option<Self>) {
        match v.get_field(&"name".to_owned()) {
            Some(StructuredValue::Text(name)) => {
                match v.get_field(&"favorite_number".to_owned()) {
                    Some(StructuredValue::Int(n)) => Some(
                        ExampleSettings { name: name.clone(), favorite_number: *n },
                    ),
                    _ => None,
                }
            },
            _ => None,
        }
    }
}

impl SettingsModel for ExampleSettings {
    type PartialKind = ExampleSettings;

    type ErrorKind = String;

    open spec fn spec_version() -> Seq<char> {
        "v1"@
    }

    open spec fn spec_set(
        current: Option<ExampleSettingsView>,
        target: ExampleSettingsView,
    ) -> Result<ExampleSettingsView, Seq<char>> {
        Ok(target)
    }

    open spec fn spec_generate(
        existing: Option<ExampleSettingsView>,
        deps: Option<ValueModel>,
    ) -> Result<GenerateResult<ExampleSettingsView, ExampleSettingsView>, Seq<char>> {
        Ok(
            GenerateResult::Complete(
                ExampleSettingsView { name: Seq::empty(), favorite_number: 0 },
            ),
        )
    }

    open spec fn spec_validate(
        value: ExampleSettingsView,
        validated: Option<ValueModel>,
    ) -> Result<bool, Seq<char>> {
        Ok(true)
    }

    fn get_version() -> (r: &'static str) {
        "v1"
    }

    fn set(current_value: Option<Self>, target: Self) -> (r: Result<Self, String>) {
        Ok(target)
    }

    fn generate(
        existing_partial: Option<Self>,
        dependent_settings: Option<StructuredValue>,
    ) -> (r: Result<GenerateResult<Self, Self>, String>) {
        Ok(GenerateResult::Complete(ExampleSettings { name: String::new(), favorite_number: 0 }))
    }

    fn validate(value: Self, validated_settings: Option<StructuredValue>) -> (r: Result<
        bool,
        String,
    >) {
        Ok(true)
    }
}

/// A settings value derived from data another setting generates: it holds
/// the integer found under the dependency's `"source"` key.
#[derive(Debug, PartialEq, Eq)]
pub struct DependentSettings {
    pub derived: i64,
}

/// The mathematical model of a [`DependentSettings`] value.
pub struct DependentSettingsView {
    pub derived: i64,
}

impl View for DependentSettings {
    type V = DependentSettingsView;

    open spec fn view(&self) -> DependentSettingsView {
        DependentSettingsView { derived: self.derived }
    }
}

impl StructuredData for DependentSettings {
    open spec fn encode_model(m: DependentSettingsView) -> ValueModel {
        ValueModel::Object(seq![("derived"@, ValueModel::Int(m.derived as int))])
    }

    /// Decoding goes by key lookup, so an object's member order does not
    /// matter and unknown members are ignored.
    open spec fn decode_model(v: ValueModel) -> Option<DependentSettingsView> {
        match value_lookup(v, "derived"@) {
            Some(ValueModel::Int(n)) => {
                if i64::MIN <= n <= i64::MAX {
                    Some(DependentSettingsView { derived: n as i64 })
                } else {
                    None
                }
            },
            _ => None,
        }
    }

    proof fn lemma_round_trip(m: DependentSettingsView) {
        assert(value_lookup(Self::encode_model(m), "derived"@) == Some(
            ValueModel::Int(m.derived as int),
        ));
    }

    fn to_structured(&self) -> (r: StructuredValue) {
        broadcast use lemma_fields_model;

        let mut fields: Vec<(String, StructuredValue)> = Vec::new();
        fields.push(("derived".to_owned(), StructuredValue::Int(self.derived)));
        let r = StructuredValue::Object(fields);
        proof {
            let fm = fields_model(fields@);
            assert(fm[0] == (fields@[0].0@, fields@[0].1.model()));
            assert(fm =~= Self::encode_model(self@)->Object_0);
        }
        r
    }

    fn from_structured(v: &StructuredValue) -> (r: Option<Self>) {
        match v.get_field(&"derived".to_owned()) {
            Some(StructuredValue::Int(n)) => Some(DependentSettings { derived: *n }),
            _ => None,
        }
    }
}

impl SettingsModel for DependentSettings {
    type PartialKind = DependentSettings;

    type ErrorKind = String;

    open spec fn spec_version() -> Seq<char> {
        "v2"@
    }

    open spec fn spec_set(
        current: Option<DependentSettingsView>,
        target: DependentSettingsView,
    ) -> Result<DependentSettingsView, Seq<char>> {
        if target.derived >= 0 {
            Ok(target)
        } else {
            Err("derived value must not be negative"@)
        }
    }

    open spec fn spec_generate(
        existing: Option<DependentSettingsView>,
        deps: Option<ValueModel>,
    ) -> Result<GenerateResult<DependentSettingsView, DependentSettingsView>, Seq<char>> {
        match deps {
            None => Ok(GenerateResult::NeedsData(None)),
            Some(d) => match d {
                ValueModel::Object(_) => match value_lookup(d, "source"@) {
                    Some(ValueModel::Int(n)) => {
                        if i64::MIN <= n <= i64::MAX {
                            Ok(
                                GenerateResult::Complete(
                                    DependentSettingsView { derived: n as i64 },
                                ),
                            )
                        } else {
                            Ok(GenerateResult::NeedsData(None))
                        }
                    },
                    _ => Ok(GenerateResult::NeedsData(None)),
                },
                _ => Err("dependency snapshot is not an object"@),
            },
        }
    }

    open spec fn spec_validate(
        value: DependentSettingsView,
        validated: Option<ValueModel>,
    ) -> Result<bool, Seq<char>> {
        match validated {
            None => Ok(value.derived >= 0),
            Some(ValueModel::Object(_)) => Ok(value.derived >= 0),
            Some(_) => Err("validated settings snapshot is not an object"@),
        }
    }

    fn get_version() -> (r: &'static str) {
        "v2"
    }

    fn set(current_value: Option<Self>, target: Self) -> (r: Result<Self, String>) {
        if target.derived >= 0 {
            Ok(target)
        } else {
            Err("derived value must not be negative".to_owned())
        }
    }

    fn generate(
        existing_partial: Option<Self>,
        dependent_settings: Option<StructuredValue>,
    ) -> (r: Result<GenerateResult<Self, Self>, String>) {
        match dependent_settings {
            None => Ok(GenerateResult::NeedsData(None)),
            Some(d) => match &d {
                StructuredValue::Object(_) => {
                    let source_key: String = "source".to_owned();
                    match d.get_field(&source_key) {
                        Some(StructuredValue::Int(n)) => Ok(
                            GenerateResult::Complete(DependentSettings { derived: *n }),
                        ),
                        _ => Ok(GenerateResult::NeedsData(None)),
                    }
                },
                _ => Err("dependency snapshot is not an object".to_owned()),
            },
        }
    }

    fn validate(value: Self, validated_settings: Option<StructuredValue>) -> (r: Result<
        bool,
        String,
    >) {
        match validated_settings {
            None => Ok(value.derived >= 0),
            Some(v) => match &v {
                StructuredValue::Object(_) => Ok(value.derived >= 0),
                _ => Err("validated settings snapshot is not an object".to_owned()),
            },
        }
    }
}

} // verus!
