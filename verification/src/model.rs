//! The typed contract a settings domain implements, and the registration
//! marker that carries a model type into the extension builder.

use vstd::prelude::*;

use core::marker::PhantomData;
use crate::structured::{StructuredValue, ValueModel};

verus! {

/// The view of an optional value: `None` stays `None`.
pub open spec fn opt_view<T: View>(o: Option<T>) -> Option<T::V> {
    match o {
        Some(x) => Some(x@),
        None => None,
    }
}

/// Data that crosses the extension boundary as a structured value.
///
/// `encode_model` and `decode_model` describe the two directions at the
/// level of mathematical models; `lemma_round_trip` obliges every
/// implementation to prove that decoding an encoded value gives the value
/// back, so a value survives the trip across the boundary unchanged.
pub trait StructuredData: View + Sized {
    /// The structured form of a value of this type.
    spec fn encode_model(m: Self::V) -> ValueModel;

    /// The value a structured tree decodes to, if it is well formed.
    spec fn decode_model(v: ValueModel) -> Option<Self::V>;

    /// Round-trip law: decoding an encoded value yields the value.
    proof fn lemma_round_trip(m: Self::V)
        ensures
            Self::decode_model(Self::encode_model(m)) == Some(m),
    ;

    /// Encodes this value into its structured form.
    fn to_structured(&self) -> (r: StructuredValue)
        ensures
            r@ == Self::encode_model(self@),
    ;

    /// Decodes a structured value; returns `None` exactly when the tree is
    /// not a well-formed encoding of this type.
    fn from_structured(v: &StructuredValue) -> (r: Option<Self>)
        ensures
            match r {
                Some(x) => Self::decode_model(v@) == Some(x@),
                None => Self::decode_model(v@) is None,
            },
    ;
}

/// Round-trip law, exercised: carrying any value across the structured-value
/// boundary — encoding it and decoding the result — yields the value back.
pub fn encode_decode_round_trip<T: StructuredData>(x: &T) -> (r: Option<T>)
    ensures
        r matches Some(y) && y@ == x@,
{
    let encoded = x.to_structured();
    proof {
        T::lemma_round_trip(x@);
    }
    T::from_structured(&encoded)
}

/// A domain-defined operation error: opaque to this crate except for its
/// diagnostic message, which must survive the erasure boundary unchanged.
pub trait DomainError: Sized {
    /// The diagnostic text this error carries.
    spec fn spec_message(self) -> Seq<char>;

    /// Renders the error as the message that crosses the erasure boundary.
    fn into_message(self) -> (r: String)
        ensures
            r@ == self.spec_message(),
    ;
}

impl DomainError for String {
    open spec fn spec_message(self) -> Seq<char> {
        self@
    }

    fn into_message(self) -> (r: String) {
        self
    }
}

/// The result of generating a setting value at runtime.
///
/// The settings system repeatedly invokes `generate` on all settings until
/// they have completed; on each cycle a model receives whatever partial
/// state it returned before, plus the data generated so far by its
/// dependencies.
#[derive(Debug, PartialEq, Eq)]
pub enum GenerateResult<Partial, Complete> {
    /// Generation needs more data from other settings before it can finish;
    /// carries the partial state accumulated so far, if any.
    NeedsData(Option<Partial>),
    /// Generation has finished with the carried value.
    Complete(Complete),
}

impl<Partial: View, Complete: View> View for GenerateResult<Partial, Complete> {
    type V = GenerateResult<Partial::V, Complete::V>;

    open spec fn view(&self) -> GenerateResult<Partial::V, Complete::V> {
        match self {
            GenerateResult::NeedsData(p) => GenerateResult::NeedsData(opt_view(*p)),
            GenerateResult::Complete(c) => GenerateResult::Complete(c@),
        }
    }
}

/// The structured form of a generation result: each payload is encoded,
/// and an absent partial stays absent.
pub open spec fn gen_encode<Partial: StructuredData, Complete: StructuredData>(
    g: GenerateResult<Partial::V, Complete::V>,
) -> GenerateResult<ValueModel, ValueModel> {
    match g {
        GenerateResult::NeedsData(None) => GenerateResult::NeedsData(None),
        GenerateResult::NeedsData(Some(p)) => GenerateResult::NeedsData(
            Some(Partial::encode_model(p)),
        ),
        GenerateResult::Complete(c) => GenerateResult::Complete(Complete::encode_model(c)),
    }
}

impl<Partial: StructuredData, Complete: StructuredData> GenerateResult<Partial, Complete> {
    /// Encodes the underlying result payloads into structured values.
    ///
    /// The conversion is total: both variants encode, and an absent partial
    /// is carried through unchanged.
    pub fn serialize(self) -> (r: GenerateResult<StructuredValue, StructuredValue>)
        ensures
            r@ == gen_encode::<Partial, Complete>(self@),
    {
        match self {
            GenerateResult::NeedsData(optional_interior) => GenerateResult::NeedsData(
                match optional_interior {
                    Some(p) => Some(p.to_structured()),
                    None => None,
                },
            ),
            GenerateResult::Complete(interior) => GenerateResult::Complete(
                interior.to_structured(),
            ),
        }
    }
}

/// The typed contract a settings domain implements, once per schema version.
///
/// Each operation is a pure function of its inputs: the spec functions
/// `spec_set`, `spec_generate` and `spec_validate` describe the outcome —
/// `Err` carries the message of the domain error — and the executable
/// operations are bound to them. In particular, repeated `generate` calls
/// with identical inputs are deterministic by contract.
pub trait SettingsModel: StructuredData {
    /// A partially-constructed version of this model's value, used while
    /// generation is still accumulating data.
    type PartialKind: StructuredData;

    /// The error type returned by the domain's own operations.
    type ErrorKind: DomainError;

    /// The version tag, e.g. `"v1"`.
    spec fn spec_version() -> Seq<char>;

    /// What `set` returns: the value to persist, or the message of the
    /// domain error.
    spec fn spec_set(current: Option<Self::V>, target: Self::V) -> Result<Self::V, Seq<char>>;

    /// What `generate` returns for given partial state and dependency data,
    /// or the message of the domain error.
    spec fn spec_generate(
        existing: Option<<Self::PartialKind as View>::V>,
        deps: Option<ValueModel>,
    ) -> Result<GenerateResult<<Self::PartialKind as View>::V, Self::V>, Seq<char>>;

    /// What `validate` returns: the verdict, or the message of the domain
    /// error.
    spec fn spec_validate(value: Self::V, validated: Option<ValueModel>) -> Result<
        bool,
        Seq<char>,
    >;

    /// Returns the fixed version tag of this settings model.
    fn get_version() -> (r: &'static str)
        ensures
            r@ == Self::spec_version(),
    ;

    /// Determines the value to persist, given the currently stored value
    /// (absent if never set) and the caller's proposed value.
    fn set(current_value: Option<Self>, target: Self) -> (r: Result<Self, Self::ErrorKind>)
        ensures
            match r {
                Ok(v) => Self::spec_set(opt_view(current_value), target@) == Ok::<
                    Self::V,
                    Seq<char>,
                >(v@),
                Err(e) => Self::spec_set(opt_view(current_value), target@) == Err::<
                    Self::V,
                    Seq<char>,
                >(e.spec_message()),
            },
    ;

    /// Computes a default or derived value; called repeatedly across
    /// generation cycles until it reports `Complete`.
    fn generate(
        existing_partial: Option<Self::PartialKind>,
        dependent_settings: Option<StructuredValue>,
    ) -> (r: Result<GenerateResult<Self::PartialKind, Self>, Self::ErrorKind>)
        ensures
            match r {
                Ok(g) => Self::spec_generate(
                    opt_view(existing_partial),
                    opt_view(dependent_settings),
                ) == Ok::<GenerateResult<<Self::PartialKind as View>::V, Self::V>, Seq<char>>(g@),
                Err(e) => Self::spec_generate(
                    opt_view(existing_partial),
                    opt_view(dependent_settings),
                ) == Err::<GenerateResult<<Self::PartialKind as View>::V, Self::V>, Seq<char>>(
                    e.spec_message(),
                ),
            },
    ;

    /// Checks a candidate value, optionally against the snapshot of other
    /// already-validated settings. A failed check is the normal result
    /// `Ok(false)`; an error is reserved for unexpected faults.
    fn validate(value: Self, validated_settings: Option<StructuredValue>) -> (r: Result<
        bool,
        Self::ErrorKind,
    >)
        ensures
            match r {
                Ok(b) => Self::spec_validate(value@, opt_view(validated_settings)) == Ok::<
                    bool,
                    Seq<char>,
                >(b),
                Err(e) => Self::spec_validate(value@, opt_view(validated_settings)) == Err::<
                    bool,
                    Seq<char>,
                >(e.spec_message()),
            },
    ;
}

/// A zero-size handle that binds one [`SettingsModel`] type to its erased
/// form for registration with the extension builder.
pub struct BottlerocketSetting<T: SettingsModel> {
    _ghost: PhantomData<T>,
}

impl<T: SettingsModel> BottlerocketSetting<T> {
    /// Boxes the marker so that heterogeneous model types can be collected
    /// for registration.
    pub fn model() -> (r: Box<Self>) {
        Box::new(BottlerocketSetting { _ghost: PhantomData })
    }
}

} // verus!
