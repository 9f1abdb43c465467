//! The type-erasure bridge: drives a typed settings model through a uniform
//! interface whose inputs and outputs are structured values.
//!
//! Each operation decodes its structured inputs into the model's native
//! types, invokes the typed operation, and encodes the typed result back;
//! every failure is mapped into the taxonomy of
//! [`BottlerocketSettingError`]. The bridge never interprets the structured
//! payloads beyond what decoding requires: all domain semantics stay inside
//! the wrapped model.

use vstd::prelude::*;

use crate::error::BottlerocketSettingError;
use crate::model::{
    gen_encode, opt_view, BottlerocketSetting, DomainError, GenerateResult, SettingsModel,
    StructuredData,
};
use crate::structured::{StructuredValue, ValueModel};

verus! {

/// The outcome of decoding an optional structured value: `Some(None)` for an
/// absent input, `Some(Some(m))` for a decoded one, `None` for a malformed
/// one.
pub open spec fn decoded_opt<T: StructuredData>(v: Option<ValueModel>) -> Option<Option<T::V>> {
    match v {
        None => Some(None),
        Some(m) => match T::decode_model(m) {
            Some(x) => Some(Some(x)),
            None => None,
        },
    }
}

/// The uniform, dynamically dispatchable face of a settings model: every
/// operation takes and returns structured values, keyed only by the version
/// tag.
///
/// Each implementation fixes, through its `*_post` spec functions, exactly
/// what its operations return for every input; the executable operations are
/// bound to them.
pub trait TypeErasedModel {
    /// The version tag of the underlying model.
    spec fn spec_version(&self) -> Seq<char>;

    /// What `set` returns for the given inputs.
    spec fn set_post(
        &self,
        current: Option<StructuredValue>,
        target: StructuredValue,
        r: Result<StructuredValue, BottlerocketSettingError>,
    ) -> bool;

    /// What `generate` returns for the given inputs.
    spec fn generate_post(
        &self,
        existing_partial: Option<StructuredValue>,
        dependent_settings: Option<StructuredValue>,
        r: Result<GenerateResult<StructuredValue, StructuredValue>, BottlerocketSettingError>,
    ) -> bool;

    /// What `validate` returns for the given inputs.
    spec fn validate_post(
        &self,
        value: StructuredValue,
        validated_settings: Option<StructuredValue>,
        r: Result<bool, BottlerocketSettingError>,
    ) -> bool;

    /// Returns the version tag this model registers under.
    fn get_version(&self) -> (r: &'static str)
        ensures
            r@ == self.spec_version(),
    ;

    /// Determines the value to persist from the stored value and the
    /// caller's proposal, both as structured values.
    fn set(&self, current: Option<StructuredValue>, target: StructuredValue) -> (r: Result<
        StructuredValue,
        BottlerocketSettingError,
    >)
        ensures
            self.set_post(current, target, r),
    ;

    /// Runs one generation cycle over structured payloads.
    fn generate(
        &self,
        existing_partial: Option<StructuredValue>,
        dependent_settings: Option<StructuredValue>,
    ) -> (r: Result<GenerateResult<StructuredValue, StructuredValue>, BottlerocketSettingError>)
        ensures
            self.generate_post(existing_partial, dependent_settings, r),
    ;

    /// Checks a candidate value, as a structured value, optionally against
    /// the snapshot of already-validated settings.
    fn validate(&self, value: StructuredValue, validated_settings: Option<StructuredValue>) -> (r:
        Result<bool, BottlerocketSettingError>)
        ensures
            self.validate_post(value, validated_settings, r),
    ;
}

impl<T: SettingsModel> TypeErasedModel for BottlerocketSetting<T> {
    open spec fn spec_version(&self) -> Seq<char> {
        T::spec_version()
    }

    open spec fn set_post(
        &self,
        current: Option<StructuredValue>,
        target: StructuredValue,
        r: Result<StructuredValue, BottlerocketSettingError>,
    ) -> bool {
        match decoded_opt::<T>(opt_view(current)) {
            None => (current matches Some(c) && r matches Err(
                BottlerocketSettingError::DeserializeInput { input_type, input, version, .. },
            ) && input_type@ == "current"@ && input == c && version@ == T::spec_version()),
            Some(cur) => match T::decode_model(target@) {
                None => (r matches Err(
                    BottlerocketSettingError::DeserializeInput { input_type, input, version, .. },
                ) && input_type@ == "target"@ && input == target && version@
                    == T::spec_version()),
                Some(tgt) => match T::spec_set(cur, tgt) {
                    Err(m) => (r matches Err(
                        BottlerocketSettingError::SetSetting { version, source },
                    ) && version@ == T::spec_version() && source@ == m),
                    Ok(out) => (r matches Ok(enc) && enc@ == T::encode_model(out)),
                },
            },
        }
    }

    open spec fn generate_post(
        &self,
        existing_partial: Option<StructuredValue>,
        dependent_settings: Option<StructuredValue>,
        r: Result<GenerateResult<StructuredValue, StructuredValue>, BottlerocketSettingError>,
    ) -> bool {
        match decoded_opt::<T::PartialKind>(opt_view(existing_partial)) {
            None => (existing_partial matches Some(p) && r matches Err(
                BottlerocketSettingError::DeserializeInput { input_type, input, version, .. },
            ) && input_type@ == "existing_partial"@ && input == p && version@
                == T::spec_version()),
            Some(part) => match T::spec_generate(part, opt_view(dependent_settings)) {
                Err(m) => (r matches Err(
                    BottlerocketSettingError::GenerateSetting { version, source },
                ) && version@ == T::spec_version() && source@ == m),
                Ok(g) => (r matches Ok(out) && out@ == gen_encode::<T::PartialKind, T>(g)),
            },
        }
    }

    open spec fn validate_post(
        &self,
        value: StructuredValue,
        validated_settings: Option<StructuredValue>,
        r: Result<bool, BottlerocketSettingError>,
    ) -> bool {
        match T::decode_model(value@) {
            None => (r matches Err(
                BottlerocketSettingError::DeserializeInput { input_type, input, version, .. },
            ) && input_type@ == "value"@ && input == value && version@ == T::spec_version()),
            Some(val) => match T::spec_validate(val, opt_view(validated_settings)) {
                Err(m) => (r matches Err(
                    BottlerocketSettingError::ValidateSetting { version, source },
                ) && version@ == T::spec_version() && source@ == m),
                Ok(b) => r == Ok::<bool, BottlerocketSettingError>(b),
            },
        }
    }

    fn get_version(&self) -> (r: &'static str) {
        T::get_version()
    }

    fn set(&self, current: Option<StructuredValue>, target: StructuredValue) -> (r: Result<
        StructuredValue,
        BottlerocketSettingError,
    >) {
        let version = T::get_version();
        let current_value: Option<T> = match current {
            None => None,
            Some(c) => match T::from_structured(&c) {
                Some(x) => Some(x),
                None => {
                    return Err(
                        BottlerocketSettingError::DeserializeInput {
                            input_type: "current",
                            input: c,
                            version,
                            source: "the stored value does not decode as this version".to_owned(),
                        },
                    );
                },
            },
        };
        let target_value: T = match T::from_structured(&target) {
            Some(x) => x,
            None => {
                return Err(
                    BottlerocketSettingError::DeserializeInput {
                        input_type: "target",
                        input: target,
                        version,
                        source: "the proposed value does not decode as this version".to_owned(),
                    },
                );
            },
        };
        match T::set(current_value, target_value) {
            Ok(v) => Ok(v.to_structured()),
            Err(e) => Err(
                BottlerocketSettingError::SetSetting { version, source: e.into_message() },
            ),
        }
    }

    fn generate(
        &self,
        existing_partial: Option<StructuredValue>,
        dependent_settings: Option<StructuredValue>,
    ) -> (r: Result<GenerateResult<StructuredValue, StructuredValue>, BottlerocketSettingError>) {
        let version = T::get_version();
        let partial: Option<T::PartialKind> = match existing_partial {
            None => None,
            Some(p) => match <T::PartialKind as StructuredData>::from_structured(&p) {
                Some(x) => Some(x),
                None => {
                    return Err(
                        BottlerocketSettingError::DeserializeInput {
                            input_type: "existing_partial",
                            input: p,
                            version,
                            source: "the previously generated partial state does not decode as this version".to_owned(),
                        },
                    );
                },
            },
        };
        match T::generate(partial, dependent_settings) {
            Ok(g) => Ok(g.serialize()),
            Err(e) => Err(
                BottlerocketSettingError::GenerateSetting { version, source: e.into_message() },
            ),
        }
    }

    fn validate(&self, value: StructuredValue, validated_settings: Option<StructuredValue>) -> (r:
        Result<bool, BottlerocketSettingError>) {
        let version = T::get_version();
        let value_typed: T = match T::from_structured(&value) {
            Some(x) => x,
            None => {
                return Err(
                    BottlerocketSettingError::DeserializeInput {
                        input_type: "value",
                        input: value,
                        version,
                        source: "the candidate value does not decode as this version".to_owned(),
                    },
                );
            },
        };
        match T::validate(value_typed, validated_settings) {
            Ok(b) => Ok(b),
            Err(e) => Err(
                BottlerocketSettingError::ValidateSetting { version, source: e.into_message() },
            ),
        }
    }
}

/// Generation is deterministic: two `generate` outcomes for one partial
/// state and one dependency snapshot agree — if one succeeds, so does the
/// other, with an equal structured result.
pub proof fn lemma_generate_deterministic<T: SettingsModel>(
    bridge: &BottlerocketSetting<T>,
    existing_partial: Option<StructuredValue>,
    dependent_settings: Option<StructuredValue>,
    r1: Result<GenerateResult<StructuredValue, StructuredValue>, BottlerocketSettingError>,
    r2: Result<GenerateResult<StructuredValue, StructuredValue>, BottlerocketSettingError>,
)
    requires
        bridge.generate_post(existing_partial, dependent_settings, r1),
        bridge.generate_post(existing_partial, dependent_settings, r2),
    ensures
        r1 is Ok <==> r2 is Ok,
        r1 matches Ok(g1) ==> r2 matches Ok(g2) && g1@ == g2@,
{
}

/// A value the model judges invalid is the normal verdict `Ok(false)`, never
/// a `ValidateSetting` error; that error is reserved for a domain fault.
pub proof fn lemma_validate_false_is_a_verdict<T: SettingsModel>(
    bridge: &BottlerocketSetting<T>,
    value: StructuredValue,
    validated_settings: Option<StructuredValue>,
    r: Result<bool, BottlerocketSettingError>,
)
    requires
        bridge.validate_post(value, validated_settings, r),
        T::decode_model(value@) matches Some(m) && T::spec_validate(
            m,
            opt_view(validated_settings),
        ) == Ok::<bool, Seq<char>>(false),
    ensures
        r == Ok::<bool, BottlerocketSettingError>(false),
{
}

/// A malformed proposed value handed to `set` is reported as
/// `DeserializeInput` carrying the offending value itself — never accepted,
/// never replaced by a default.
pub proof fn lemma_malformed_set_input_reported<T: SettingsModel>(
    bridge: &BottlerocketSetting<T>,
    current: Option<StructuredValue>,
    target: StructuredValue,
    r: Result<StructuredValue, BottlerocketSettingError>,
)
    requires
        bridge.set_post(current, target, r),
        decoded_opt::<T>(opt_view(current)) is Some,
        T::decode_model(target@) is None,
    ensures
        r matches Err(BottlerocketSettingError::DeserializeInput { input, version, .. })
            && input == target && version@ == T::spec_version(),
{
}

/// A malformed candidate value handed to `validate` is reported as
/// `DeserializeInput` carrying the offending value itself.
pub proof fn lemma_malformed_validate_input_reported<T: SettingsModel>(
    bridge: &BottlerocketSetting<T>,
    value: StructuredValue,
    validated_settings: Option<StructuredValue>,
    r: Result<bool, BottlerocketSettingError>,
)
    requires
        bridge.validate_post(value, validated_settings, r),
        T::decode_model(value@) is None,
    ensures
        r matches Err(BottlerocketSettingError::DeserializeInput { input, version, .. })
            && input == value && version@ == T::spec_version(),
{
}

/// A malformed stored value handed to `set` is reported as
/// `DeserializeInput` carrying the offending value itself.
pub proof fn lemma_malformed_current_reported<T: SettingsModel>(
    bridge: &BottlerocketSetting<T>,
    current: Option<StructuredValue>,
    target: StructuredValue,
    r: Result<StructuredValue, BottlerocketSettingError>,
)
    requires
        bridge.set_post(current, target, r),
        decoded_opt::<T>(opt_view(current)) is None,
    ensures
        current matches Some(c) && r matches Err(
            BottlerocketSettingError::DeserializeInput { input, version, .. },
        ) && input == c && version@ == T::spec_version(),
{
}

/// A malformed previously-generated partial handed to `generate` is reported
/// as `DeserializeInput` carrying the offending value itself, never silently
/// dropped.
pub proof fn lemma_malformed_partial_reported<T: SettingsModel>(
    bridge: &BottlerocketSetting<T>,
    existing_partial: Option<StructuredValue>,
    dependent_settings: Option<StructuredValue>,
    r: Result<GenerateResult<StructuredValue, StructuredValue>, BottlerocketSettingError>,
)
    requires
        bridge.generate_post(existing_partial, dependent_settings, r),
        decoded_opt::<T::PartialKind>(opt_view(existing_partial)) is None,
    ensures
        existing_partial matches Some(p) && r matches Err(
            BottlerocketSettingError::DeserializeInput { input, version, .. },
        ) && input == p && version@ == T::spec_version(),
{
}

/// A domain fault in `set` is reported as `SetSetting` with the domain
/// error's message preserved in its `source`: no cause is swallowed.
pub proof fn lemma_set_fault_preserves_message<T: SettingsModel>(
    bridge: &BottlerocketSetting<T>,
    current: Option<StructuredValue>,
    target: StructuredValue,
    r: Result<StructuredValue, BottlerocketSettingError>,
    msg: Seq<char>,
)
    requires
        bridge.set_post(current, target, r),
        decoded_opt::<T>(opt_view(current)) matches Some(cur) && T::decode_model(target@)
            matches Some(tgt) && T::spec_set(cur, tgt) == Err::<T::V, Seq<char>>(msg),
    ensures
        r matches Err(BottlerocketSettingError::SetSetting { version, source }) && version@
            == T::spec_version() && source@ == msg,
{
}

/// A domain fault in `generate` is reported as `GenerateSetting` with the
/// domain error's message preserved in its `source`.
pub proof fn lemma_generate_fault_preserves_message<T: SettingsModel>(
    bridge: &BottlerocketSetting<T>,
    existing_partial: Option<StructuredValue>,
    dependent_settings: Option<StructuredValue>,
    r: Result<GenerateResult<StructuredValue, StructuredValue>, BottlerocketSettingError>,
    msg: Seq<char>,
)
    requires
        bridge.generate_post(existing_partial, dependent_settings, r),
        decoded_opt::<T::PartialKind>(opt_view(existing_partial)) matches Some(part)
            && T::spec_generate(part, opt_view(dependent_settings)) == Err::<
            GenerateResult<<T::PartialKind as View>::V, T::V>,
            Seq<char>,
        >(msg),
    ensures
        r matches Err(BottlerocketSettingError::GenerateSetting { version, source }) && version@
            == T::spec_version() && source@ == msg,
{
}

/// A domain fault in `validate` is reported as `ValidateSetting` with the
/// domain error's message preserved in its `source`.
pub proof fn lemma_validate_fault_preserves_message<T: SettingsModel>(
    bridge: &BottlerocketSetting<T>,
    value: StructuredValue,
    validated_settings: Option<StructuredValue>,
    r: Result<bool, BottlerocketSettingError>,
    msg: Seq<char>,
)
    requires
        bridge.validate_post(value, validated_settings, r),
        T::decode_model(value@) matches Some(val) && T::spec_validate(
            val,
            opt_view(validated_settings),
        ) == Err::<bool, Seq<char>>(msg),
    ensures
        r matches Err(BottlerocketSettingError::ValidateSetting { version, source }) && version@
            == T::spec_version() && source@ == msg,
{
}

} // verus!
