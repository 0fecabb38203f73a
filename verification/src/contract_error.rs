//! The error capability and the generic return-normalization protocol.
//!
//! Any type opting into the error capability exposes a stable type
//! identifier and a payload, and wraps itself into the canonical
//! envelope. Return normalization resolves a method's return type
//! against two candidates — a specific one for fallible-result shapes
//! and a generic one for everything else — most-specific first, with
//! the two candidates mutually exclusive and together total.

use vstd::prelude::*;

use crate::envelope::EnvelopeRepr;
use crate::envelope::ErrorEnvelope;
use crate::envelope::TextRepr;
use crate::envelope::TextValue;
use crate::envelope::serialize_envelope;
use crate::envelope::spec_serialize_envelope;
use crate::envelope::json_text_of;
use crate::envelope::to_json_text;
use core::marker::PhantomData;

verus! {

/// The error capability: a stable type tag, a per-type persistence
/// policy, and a payload that wraps into the canonical envelope.
pub trait ContractErrorTrait: Sized {
    /// The stable identifier of the error's shape: derived from the
    /// defining location and the type's name alone, never from a value,
    /// so two instances of the same type always agree.
    spec fn spec_error_type() -> Seq<char>;

    /// Whether failing with this error still writes state back:
    /// a static property of the error type, opt-in per type.
    spec fn spec_persist_on_error() -> bool;

    /// The model of this value's serialized payload.
    spec fn spec_payload(&self) -> TextRepr;

    /// The stable identifier of the error's shape.
    fn error_type(&self) -> (r: &'static str)
        ensures
            r@ == Self::spec_error_type(),
    ;

    /// Whether failing with this error still writes state back.
    fn persist_on_error(&self) -> (r: bool)
        ensures
            r == Self::spec_persist_on_error(),
    ;

    /// The canonical envelope of this value: its type tag and payload.
    fn wrap(&self) -> (r: ErrorEnvelope)
        ensures
            r.deep_view() == (EnvelopeRepr {
                error_type: Self::spec_error_type(),
                value: self.spec_payload(),
            }),
    ;
}

/// The envelope model of an error value.
pub open spec fn spec_wrapped<T: ContractErrorTrait>(e: T) -> EnvelopeRepr {
    EnvelopeRepr { error_type: T::spec_error_type(), value: e.spec_payload() }
}

/// The type tag is stable: two instances of one error type always
/// agree on it, since it is derived from the type alone and never from
/// a value.
pub proof fn lemma_error_type_stable<T: ContractErrorTrait>(a: T, b: T)
    ensures
        spec_wrapped(a).error_type == spec_wrapped(b).error_type,
{
}

/// A build-time check that a type opted into the error capability.
pub fn check_contract_error_trait<T: ContractErrorTrait>(_e: &T) {
}

/// Wrap an error into its envelope, serialized as a structured-text
/// value: a mapping with exactly the keys `error_type` and `value`.
pub fn wrap_error<T: ContractErrorTrait>(error: T) -> (r: TextValue)
    ensures
        r.deep_view() == spec_serialize_envelope(spec_wrapped(error)),
{
    let env = error.wrap();
    serialize_envelope(env)
}

/// The type-erased form of a wrapped error: the envelope value itself,
/// ready to nest or to surface.
#[derive(PartialEq, Eq, Debug)]
pub struct BaseError {
    /// The serialized envelope of the wrapped error.
    pub error: TextValue,
}

impl BaseError {
    /// Erase a typed error into its serialized envelope.
    pub fn from_error<T: ContractErrorTrait>(error: T) -> (r: BaseError)
        ensures
            r.error.deep_view() == spec_serialize_envelope(spec_wrapped(error)),
    {
        BaseError { error: wrap_error(error) }
    }

    /// The single top-level diagnostic string surfaced for this error:
    /// its envelope rendered by the structured-text codec.
    pub fn into_diagnostic_string(self) -> (r: String)
        ensures
            r@ == json_text_of(self.error.deep_view()),
    {
        to_json_text(&self.error)
    }
}

impl ContractErrorTrait for BaseError {
    open spec fn spec_error_type() -> Seq<char> {
        "near_sdk_core::contract_error::BaseError"@
    }

    open spec fn spec_persist_on_error() -> bool {
        false
    }

    /// The payload of a type-erased error is the envelope it already
    /// carries: envelopes nest.
    open spec fn spec_payload(&self) -> TextRepr {
        self.error.deep_view()
    }

    fn error_type(&self) -> (r: &'static str) {
        "near_sdk_core::contract_error::BaseError"
    }

    fn persist_on_error(&self) -> (r: bool) {
        false
    }

    fn wrap(&self) -> (r: ErrorEnvelope) {
        let r = ErrorEnvelope {
            error_type: String::from_str("near_sdk_core::contract_error::BaseError"),
            value: self.error.clone(),
        };
        proof {
            assert(r.deep_view() =~= (EnvelopeRepr {
                error_type: Self::spec_error_type(),
                value: self.spec_payload(),
            }));
        }
        r
    }
}

/// The return type of a method, resolved against two normalization
/// candidates. The `self` receiver is only an anchor for resolution;
/// the real input is the `ret` parameter.
pub trait ContractReturnNormalize<Error> {
    /// The method return type as the author wrote it.
    type Input;

    /// The `Ok` type of the normalized result.
    type Okay;

    /// What normalization yields for a raw return value.
    spec fn spec_normalize(ret: Self::Input) -> Result<Self::Okay, Error>;

    /// Turn the method's actual return value into a uniform
    /// success-or-error outcome.
    fn normalize_return(self, ret: Self::Input) -> (r: Result<Self::Okay, Error>)
        ensures
            r == Self::spec_normalize(ret),
    ;
}

/// The generic candidate: stands for any return type that is not
/// shaped as a fallible result.
pub struct PlainReturn<T> {
    marker: PhantomData<T>,
}

impl<T> PlainReturn<T> {
    /// The resolution anchor for a plain return type.
    pub fn new() -> (r: PlainReturn<T>) {
        PlainReturn { marker: PhantomData }
    }
}

/// The specific candidate: stands for a return type that is literally
/// a fallible-result shape wrapping a success and an error type.
pub struct FallibleReturn<T, Error> {
    marker: PhantomData<(T, Error)>,
}

impl<T, Error> FallibleReturn<T, Error> {
    /// The resolution anchor for a fallible-result return type.
    pub fn new() -> (r: FallibleReturn<T, Error>) {
        FallibleReturn { marker: PhantomData }
    }
}

impl<T> ContractReturnNormalize<BaseError> for PlainReturn<T> {
    type Input = T;

    type Okay = T;

    open spec fn spec_normalize(ret: T) -> Result<T, BaseError> {
        Result::Ok(ret)
    }

    /// The raw value itself is the success value: this candidate can
    /// never produce a failure.
    fn normalize_return(self, ret: T) -> (r: Result<T, BaseError>) {
        Ok(ret)
    }
}

impl<T, Error> ContractReturnNormalize<Error> for FallibleReturn<T, Error> {
    type Input = Result<T, Error>;

    type Okay = T;

    open spec fn spec_normalize(ret: Result<T, Error>) -> Result<T, Error> {
        ret
    }

    /// An `Ok` becomes success with the unwrapped value, an `Err`
    /// becomes failure with the unwrapped error.
    fn normalize_return(self, ret: Result<T, Error>) -> (r: Result<T, Error>) {
        ret
    }
}

/// Shape-match is mutually exclusive and total: a fallible-result raw
/// value resolves to the specific candidate, which passes it through
/// unchanged, and a raw value of any other shape resolves to the
/// generic candidate, which can only ever yield success.
pub proof fn lemma_normalization_exclusive_and_total<T, E>(fallible: Result<T, E>, plain: T)
    ensures
        <FallibleReturn<T, E> as ContractReturnNormalize<E>>::spec_normalize(fallible)
            == fallible,
        <PlainReturn<T> as ContractReturnNormalize<BaseError>>::spec_normalize(plain)
            == Result::<T, BaseError>::Ok(plain),
        <PlainReturn<T> as ContractReturnNormalize<BaseError>>::spec_normalize(plain) is Ok,
{
}

} // verus!
