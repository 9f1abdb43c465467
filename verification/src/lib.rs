//! Settings-model toolkit: typed settings domains behind a uniform,
//! version-tagged protocol of structured values.
//!
//! A settings domain describes one schema version of its data as a typed
//! model ([`model::SettingsModel`]), together with conversions to and from a
//! [`structured::StructuredValue`] tree. The type-erasure bridge
//! ([`erased::TypeErasedModel`]) exposes each model through a uniform
//! interface whose inputs and outputs are structured values, mapping every
//! failure into the structured taxonomy of
//! [`error::BottlerocketSettingError`].

pub mod erased;
pub mod error;
pub mod example;
pub mod model;
pub mod registry;
pub mod structured;
