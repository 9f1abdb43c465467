//! The error taxonomy surfaced across the type-erasure boundary.
//!
//! Every failure of an erased operation is reported as one of these
//! variants, each tagged with the version of the model that produced it.
//! Domain failures keep their diagnostic text as an opaque message string.

use vstd::prelude::*;

use crate::structured::StructuredValue;

verus! {

/// The error returned when a user-defined settings model is driven through
/// the type-erasure bridge.
#[derive(Debug, PartialEq, Eq)]
pub enum BottlerocketSettingError {
    /// A caller-supplied structured value could not be decoded into the
    /// model's native type; carries the offending value for diagnostics.
    DeserializeInput {
        /// The operation whose input was malformed.
        input_type: &'static str,
        /// The offending structured value, exactly as it was handed in.
        input: StructuredValue,
        /// The version tag of the model that rejected the input.
        version: &'static str,
        /// A description of the decoding failure.
        source: String,
    },
    /// The domain's own `generate` operation failed.
    GenerateSetting { version: &'static str, source: String },
    /// A stored value could not be parsed back into the native type by a
    /// collaborator (e.g. a migrator); the bridge itself reports every
    /// decoding failure of its entry points as `DeserializeInput`.
    ParseSetting { version: &'static str, source: String },
    /// A typed result could not be encoded back into a structured value;
    /// carries the operation that produced the result.
    SerializeResult { version: &'static str, operation: &'static str, source: String },
    /// The domain's own `set` operation failed.
    SetSetting { version: &'static str, source: String },
    /// The domain's own `validate` operation failed.
    ValidateSetting { version: &'static str, source: String },
}

impl BottlerocketSettingError {
    /// The version tag of the model that produced this error; every variant
    /// carries one.
    pub fn version(&self) -> (r: &'static str)
        ensures
            match self {
                BottlerocketSettingError::DeserializeInput { version, .. } => r == version,
                BottlerocketSettingError::GenerateSetting { version, .. } => r == version,
                BottlerocketSettingError::ParseSetting { version, .. } => r == version,
                BottlerocketSettingError::SerializeResult { version, .. } => r == version,
                BottlerocketSettingError::SetSetting { version, .. } => r == version,
                BottlerocketSettingError::ValidateSetting { version, .. } => r == version,
            },
    {
        match self {
            BottlerocketSettingError::DeserializeInput { version, .. } => version,
            BottlerocketSettingError::GenerateSetting { version, .. } => version,
            BottlerocketSettingError::ParseSetting { version, .. } => version,
            BottlerocketSettingError::SerializeResult { version, .. } => version,
            BottlerocketSettingError::SetSetting { version, .. } => version,
            BottlerocketSettingError::ValidateSetting { version, .. } => version,
        }
    }
}

} // verus!
