//! Method-signature classifier.
//!
//! A method description — receiver form, declared return type and the
//! markers attached to the method — is turned into a durable
//! `ClassificationRecord` or refused with a `ClassifyError`. The
//! classifier is pure analysis over the description and is the single
//! place that decides a method's kind, payability, privacy,
//! serialization choice and return-handling policy.

use vstd::prelude::*;

verus! {

/// Type of serialization we use.
#[derive(Clone, Copy, PartialEq, Eq, Structural, Debug)]
pub enum SerializerType {
    JSON,
    Borsh,
}

/// The form of a method's `self` receiver.
#[derive(Clone, Copy, PartialEq, Eq, Structural, Debug)]
pub enum ReceiverForm {
    /// `&self`
    RefSelf,
    /// `&mut self`
    RefMutSelf,
    /// `self`
    OwnedSelf,
    /// `mut self`
    OwnedMutSelf,
}

impl ReceiverForm {
    /// A mutable receiver makes the method a state-mutating call.
    pub open spec fn spec_is_mutable(self) -> bool {
        self == ReceiverForm::RefMutSelf || self == ReceiverForm::OwnedMutSelf
    }

    /// Whether this receiver form lets the method mutate the state.
    pub fn is_mutable(&self) -> (r: bool)
        ensures
            r == self.spec_is_mutable(),
    {
        match self {
            ReceiverForm::RefMutSelf => true,
            ReceiverForm::OwnedMutSelf => true,
            ReceiverForm::RefSelf => false,
            ReceiverForm::OwnedSelf => false,
        }
    }
}

/// A return-type expression as the parsing collaborator hands it over.
#[derive(PartialEq, Eq, Debug)]
pub enum TypeExpr {
    /// The enclosing state type itself, written `Self`.
    SelfAlias,
    /// A plain named type.
    Named(String),
    /// A fallible-result shape wrapping an ok part and an error part.
    FallibleResult(Box<TypeExpr>, Box<TypeExpr>),
}

impl TypeExpr {
    /// Whether the expression mentions the enclosing state type.
    pub open spec fn spec_mentions_self(self) -> bool
        decreases self,
    {
        match self {
            TypeExpr::SelfAlias => true,
            TypeExpr::Named(_) => false,
            TypeExpr::FallibleResult(ok, err) => ok.spec_mentions_self()
                || err.spec_mentions_self(),
        }
    }

    /// Whether the expression is shaped as a fallible result.
    pub open spec fn spec_is_fallible(self) -> bool {
        self is FallibleResult
    }

    /// Whether the expression mentions the enclosing state type.
    pub fn mentions_self(&self) -> (r: bool)
        ensures
            r == self.spec_mentions_self(),
        decreases *self,
    {
        match self {
            TypeExpr::SelfAlias => true,
            TypeExpr::Named(_) => false,
            TypeExpr::FallibleResult(ok, err) => ok.mentions_self() || err.mentions_self(),
        }
    }

    /// Whether the expression is shaped as a fallible result.
    pub fn is_fallible(&self) -> (r: bool)
        ensures
            r == self.spec_is_fallible(),
    {
        match self {
            TypeExpr::FallibleResult(_, _) => true,
            _ => false,
        }
    }
}

impl Clone for TypeExpr {
    fn clone(&self) -> (res: Self)
        ensures
            res == *self,
        decreases *self,
    {
        match self {
            TypeExpr::SelfAlias => TypeExpr::SelfAlias,
            TypeExpr::Named(n) => TypeExpr::Named(n.clone()),
            TypeExpr::FallibleResult(ok, err) => TypeExpr::FallibleResult(
                Box::new((**ok).clone()),
                Box::new((**err).clone()),
            ),
        }
    }
}

/// The markers attached to a method by its author.
#[derive(Clone, Copy, PartialEq, Eq, Debug)]
pub struct MethodMarkers {
    /// The method accepts an attached token deposit.
    pub payable: bool,
    /// The method only accepts calls from the state's own account.
    pub private: bool,
    /// The method handles a fallible result explicitly.
    pub handles_result: bool,
    /// A constructor that is exempt from the "state must not already
    /// exist" precondition.
    pub ignores_state: bool,
    /// An explicit serializer choice for the return value.
    pub result_serializer: Option<SerializerType>,
}

impl MethodMarkers {
    /// No marker attached at all.
    pub fn none() -> (r: MethodMarkers)
        ensures
            r == (MethodMarkers {
                payable: false,
                private: false,
                handles_result: false,
                ignores_state: false,
                result_serializer: None::<SerializerType>,
            }),
    {
        MethodMarkers {
            payable: false,
            private: false,
            handles_result: false,
            ignores_state: false,
            result_serializer: None,
        }
    }
}

/// Everything the classifier reads about one method: the description
/// record handed over by the parsing collaborator.
#[derive(Clone, PartialEq, Debug)]
pub struct MethodDescription {
    /// The receiver form, or `None` for a method without a receiver.
    pub receiver: Option<ReceiverForm>,
    /// The declared return type, or `None` when no return type is written.
    pub return_ty: Option<TypeExpr>,
    /// The markers attached to the method.
    pub markers: MethodMarkers,
    /// Whether the error type of a fallible return carries the
    /// persist-on-error capability. Declared on the error type, not on
    /// the method; ignored for non-fallible returns.
    pub error_type_persists: bool,
}

/// A state-mutating entry point.
#[derive(Clone, PartialEq, Eq, Debug)]
pub struct CallMethod {
    /// Whether the method accepts an attached token deposit.
    pub is_payable: bool,
    /// Whether the method only accepts calls from the state's own account.
    pub is_private: bool,
    /// The serializer used for the return value.
    pub result_serializer: SerializerType,
    /// The receiver form the method was declared with.
    pub receiver: Option<ReceiverForm>,
}

/// A read-only entry point.
#[derive(Clone, PartialEq, Eq, Debug)]
pub struct ViewMethod {
    /// Whether the method only accepts calls from the state's own account.
    pub is_private: bool,
    /// The serializer used for the return value.
    pub result_serializer: SerializerType,
    /// The receiver form the method was declared with.
    pub receiver: Option<ReceiverForm>,
}

/// A constructor for the initial state.
#[derive(Clone, Copy, PartialEq, Eq, Structural, Debug)]
pub struct InitMethod {
    /// Whether the method accepts an attached token deposit.
    pub is_payable: bool,
    /// Whether the constructor is exempt from the "state must not
    /// already exist" precondition.
    pub ignores_state: bool,
}

/// The kind a classified method falls under: exactly one per method.
#[derive(Clone, PartialEq, Eq, Debug)]
pub enum MethodKind {
    Call(CallMethod),
    View(ViewMethod),
    Init(InitMethod),
}

/// The success type of a return policy, together with the
/// persist-on-error flag of its error type (false when there is none).
#[derive(Clone, PartialEq, Eq, Debug)]
pub struct StatusResult {
    /// The type expression the policy operates over.
    pub result_type: TypeExpr,
    /// Whether a failure of this method still writes state back.
    pub persist_on_error: bool,
}

/// The return-handling policy of a classified method.
#[derive(Clone, PartialEq, Eq, Debug)]
pub enum ReturnKind {
    /// No declared return type: the outcome is always success and
    /// nothing is serialized.
    Default,
    /// A declared return type that is not shaped as a fallible result:
    /// the outcome is always success with that payload.
    General(StatusResult),
    /// A fallible-result return type on a method marked for explicit
    /// result handling: the outcome is success or failure.
    HandlesResultExplicit(StatusResult),
}

/// The declared return type together with its policy.
#[derive(Clone, PartialEq, Eq, Debug)]
pub struct Returns {
    /// The return type exactly as declared, or `None` when absent.
    pub original: Option<TypeExpr>,
    /// The policy the classifier derived for it.
    pub kind: ReturnKind,
}

/// The durable build-time artifact per method, produced once and
/// consumed only by code generation.
#[derive(Clone, PartialEq, Eq, Debug)]
pub struct ClassificationRecord {
    /// The method's kind with its payability, privacy and serializer.
    pub kind: MethodKind,
    /// The method's return-handling policy.
    pub return_info: Returns,
}

/// A malformed receiver/marker/return-type combination: always fatal
/// to the build, never recoverable.
#[derive(Clone, Copy, PartialEq, Eq, Structural, Debug)]
pub enum ClassifyError {
    /// The privacy marker stands on a method without a receiver.
    PrivateMarkerOnConstructor,
    /// A serializer choice stands on a method without a receiver.
    SerializerMarkerOnConstructor,
    /// The state-exemption marker stands on a method with a receiver.
    IgnoresStateOutsideConstructor,
    /// The return type mentions the state type on a method with a
    /// receiver: a self-return is only valid as a constructor.
    SelfReturnOutsideConstructor,
    /// The payability marker stands on a read-only method.
    PayableMarkerOnView,
    /// A fallible-result return type without the explicit-result
    /// marker: the handling would be ambiguous.
    FallibleWithoutExplicitMarker,
    /// The explicit-result marker on a method whose return type is not
    /// a fallible result.
    ExplicitMarkerWithoutFallibleReturn,
}

/// The serializer a marker set selects: the explicit choice, or the
/// structured-text default.
pub open spec fn spec_chosen_serializer(m: MethodMarkers) -> SerializerType {
    match m.result_serializer {
        Option::Some(s) => s,
        Option::None => SerializerType::JSON,
    }
}

/// The return-handling policy of a description, or the error that
/// refuses it: fallible shapes demand the explicit-result marker, and
/// the marker demands a fallible shape.
pub open spec fn spec_return_kind(d: MethodDescription) -> Result<ReturnKind, ClassifyError> {
    match d.return_ty {
        Option::None => {
            if d.markers.handles_result {
                Result::Err(ClassifyError::ExplicitMarkerWithoutFallibleReturn)
            } else {
                Result::Ok(ReturnKind::Default)
            }
        },
        Option::Some(t) => {
            if t.spec_is_fallible() {
                if d.markers.handles_result {
                    Result::Ok(ReturnKind::HandlesResultExplicit(StatusResult {
                        result_type: t,
                        persist_on_error: d.error_type_persists,
                    }))
                } else {
                    Result::Err(ClassifyError::FallibleWithoutExplicitMarker)
                }
            } else {
                if d.markers.handles_result {
                    Result::Err(ClassifyError::ExplicitMarkerWithoutFallibleReturn)
                } else {
                    Result::Ok(ReturnKind::General(StatusResult {
                        result_type: t,
                        persist_on_error: false,
                    }))
                }
            }
        },
    }
}

/// What classification returns on a description: the record, or the
/// first error in the fixed marker-before-return checking order.
pub open spec fn spec_classify(d: MethodDescription) -> Result<
    ClassificationRecord,
    ClassifyError,
> {
    match d.receiver {
        Option::None => {
            if d.markers.private {
                Result::Err(ClassifyError::PrivateMarkerOnConstructor)
            } else if d.markers.result_serializer is Some {
                Result::Err(ClassifyError::SerializerMarkerOnConstructor)
            } else {
                match spec_return_kind(d) {
                    Result::Err(e) => Result::Err(e),
                    Result::Ok(kind) => Result::Ok(ClassificationRecord {
                        kind: MethodKind::Init(InitMethod {
                            is_payable: d.markers.payable,
                            ignores_state: d.markers.ignores_state,
                        }),
                        return_info: Returns { original: d.return_ty, kind },
                    }),
                }
            }
        },
        Option::Some(r) => {
            if d.markers.ignores_state {
                Result::Err(ClassifyError::IgnoresStateOutsideConstructor)
            } else if (match d.return_ty {
                Option::Some(t) => t.spec_mentions_self(),
                Option::None => false,
            }) {
                Result::Err(ClassifyError::SelfReturnOutsideConstructor)
            } else if !r.spec_is_mutable() && d.markers.payable {
                Result::Err(ClassifyError::PayableMarkerOnView)
            } else {
                match spec_return_kind(d) {
                    Result::Err(e) => Result::Err(e),
                    Result::Ok(kind) => Result::Ok(ClassificationRecord {
                        kind: if r.spec_is_mutable() {
                            MethodKind::Call(CallMethod {
                                is_payable: d.markers.payable,
                                is_private: d.markers.private,
                                result_serializer: spec_chosen_serializer(d.markers),
                                receiver: Option::Some(r),
                            })
                        } else {
                            MethodKind::View(ViewMethod {
                                is_private: d.markers.private,
                                result_serializer: spec_chosen_serializer(d.markers),
                                receiver: Option::Some(r),
                            })
                        },
                        return_info: Returns { original: d.return_ty, kind },
                    }),
                }
            }
        },
    }
}

/// The serializer a marker set selects.
pub fn chosen_serializer(m: &MethodMarkers) -> (r: SerializerType)
    ensures
        r == spec_chosen_serializer(*m),
{
    match m.result_serializer {
        Some(s) => s,
        None => SerializerType::JSON,
    }
}

fn clone_return_type(t: &Option<TypeExpr>) -> (r: Option<TypeExpr>)
    ensures
        r == *t,
{
    match t {
        Some(t) => Some(t.clone()),
        None => None,
    }
}

fn return_kind(d: &MethodDescription) -> (r: Result<ReturnKind, ClassifyError>)
    ensures
        r == spec_return_kind(*d),
{
    match &d.return_ty {
        None => {
            if d.markers.handles_result {
                Err(ClassifyError::ExplicitMarkerWithoutFallibleReturn)
            } else {
                Ok(ReturnKind::Default)
            }
        },
        Some(t) => {
            if t.is_fallible() {
                if d.markers.handles_result {
                    Ok(ReturnKind::HandlesResultExplicit(StatusResult {
                        result_type: t.clone(),
                        persist_on_error: d.error_type_persists,
                    }))
                } else {
                    Err(ClassifyError::FallibleWithoutExplicitMarker)
                }
            } else {
                if d.markers.handles_result {
                    Err(ClassifyError::ExplicitMarkerWithoutFallibleReturn)
                } else {
                    Ok(ReturnKind::General(StatusResult {
                        result_type: t.clone(),
                        persist_on_error: false,
                    }))
                }
            }
        },
    }
}

/// Classify one method description: pure analysis, no side effects.
/// The result is exactly `spec_classify` of the description, so two
/// runs over equal descriptions can never disagree.
pub fn classify(d: &MethodDescription) -> (r: Result<ClassificationRecord, ClassifyError>)
    ensures
        r == spec_classify(*d),
{
    match d.receiver {
        None => {
            if d.markers.private {
                Err(ClassifyError::PrivateMarkerOnConstructor)
            } else if d.markers.result_serializer.is_some() {
                Err(ClassifyError::SerializerMarkerOnConstructor)
            } else {
                match return_kind(d) {
                    Err(e) => Err(e),
                    Ok(kind) => Ok(ClassificationRecord {
                        kind: MethodKind::Init(InitMethod {
                            is_payable: d.markers.payable,
                            ignores_state: d.markers.ignores_state,
                        }),
                        return_info: Returns { original: clone_return_type(&d.return_ty), kind },
                    }),
                }
            }
        },
        Some(r) => {
            let self_mentioned = match &d.return_ty {
                Some(t) => t.mentions_self(),
                None => false,
            };
            if d.markers.ignores_state {
                Err(ClassifyError::IgnoresStateOutsideConstructor)
            } else if self_mentioned {
                Err(ClassifyError::SelfReturnOutsideConstructor)
            } else if !r.is_mutable() && d.markers.payable {
                Err(ClassifyError::PayableMarkerOnView)
            } else {
                match return_kind(d) {
                    Err(e) => Err(e),
                    Ok(kind) => Ok(ClassificationRecord {
                        kind: if r.is_mutable() {
                            MethodKind::Call(CallMethod {
                                is_payable: d.markers.payable,
                                is_private: d.markers.private,
                                result_serializer: chosen_serializer(&d.markers),
                                receiver: Some(r),
                            })
                        } else {
                            MethodKind::View(ViewMethod {
                                is_private: d.markers.private,
                                result_serializer: chosen_serializer(&d.markers),
                                receiver: Some(r),
                            })
                        },
                        return_info: Returns { original: clone_return_type(&d.return_ty), kind },
                    }),
                }
            }
        },
    }
}

/// Classification is idempotent: the record is a function of the
/// description alone, so classifying the same description twice yields
/// identical results.
pub proof fn lemma_classification_idempotent(d1: MethodDescription, d2: MethodDescription)
    requires
        d1 == d2,
    ensures
        spec_classify(d1) == spec_classify(d2),
{
}

/// A fallible-result return type without the explicit-result marker is
/// always a build-time error, whatever the receiver and the other
/// markers say.
pub proof fn lemma_fallible_needs_marker(d: MethodDescription)
    requires
        d.return_ty matches Option::Some(t) && t.spec_is_fallible(),
        !d.markers.handles_result,
    ensures
        spec_classify(d) is Err,
{
}

/// The receiver form alone decides the kind of an accepted method: no
/// receiver makes a constructor, a mutable receiver a call, an
/// immutable receiver a view — exactly one kind per method.
pub proof fn lemma_receiver_decides_kind(d: MethodDescription, r: ClassificationRecord)
    requires
        spec_classify(d) == Result::<ClassificationRecord, ClassifyError>::Ok(r),
    ensures
        (d.receiver is None) <==> (r.kind is Init),
        (d.receiver matches Option::Some(rc) && rc.spec_is_mutable()) <==> (r.kind is Call),
        (d.receiver matches Option::Some(rc) && !rc.spec_is_mutable()) <==> (r.kind is View),
{
}

/// An accepted read-only method never carries the payability marker,
/// and an accepted constructor never carries the privacy marker.
pub proof fn lemma_marker_validation(d: MethodDescription, r: ClassificationRecord)
    requires
        spec_classify(d) == Result::<ClassificationRecord, ClassifyError>::Ok(r),
    ensures
        r.kind is View ==> !d.markers.payable,
        r.kind is Init ==> !d.markers.private,
        r.kind is Init || !d.markers.ignores_state,
{
}

/// An explicit-result policy is only ever produced for a method that
/// carries the explicit-result marker and whose declared return type is
/// shaped as a fallible result.
pub proof fn lemma_explicit_policy_needs_marker(d: MethodDescription, r: ClassificationRecord)
    requires
        spec_classify(d) == Result::<ClassificationRecord, ClassifyError>::Ok(r),
        r.return_info.kind is HandlesResultExplicit,
    ensures
        d.markers.handles_result,
        d.return_ty matches Option::Some(t) && t.spec_is_fallible(),
{
}

} // verus!
