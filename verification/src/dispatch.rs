//! The dispatch policy: the state machine that ends every invocation.
//!
//! An invocation runs the method body to completion or abnormal
//! termination; its normalized outcome then decides, together with the
//! error type's persist-on-error policy, whether the pending state
//! mutations are written back or discarded, and what is surfaced to
//! the caller. The mutation buffer is atomically either kept whole or
//! dropped whole: no partial write is observable.

use vstd::prelude::*;

use crate::contract_error::ContractErrorTrait;
use crate::contract_error::ContractReturnNormalize;
use crate::contract_error::PlainReturn;
use crate::contract_error::BaseError;
use crate::contract_error::spec_wrapped;
use crate::envelope::json_text_of;
use crate::envelope::serialize_envelope;
use crate::envelope::spec_serialize_envelope;
use crate::envelope::to_json_text;

verus! {

/// The terminal state of one invocation.
#[derive(Clone, Copy, PartialEq, Eq, Structural, Debug)]
pub enum DispatchTerminal {
    /// The method succeeded: mutations written back, value surfaced.
    Committed,
    /// The method failed with a non-persisting error: mutations
    /// discarded, the state reverts to its pre-call snapshot.
    RolledBack,
    /// The method failed with a persist-on-error error type: mutations
    /// written back even though the failure is surfaced.
    CommittedWithError,
    /// The method terminated abnormally: mutations discarded whatever
    /// any persist-on-error policy says, a plain diagnostic surfaced.
    Aborted,
}

/// How the method body ended: with a proposed next state and a
/// normalized outcome, or in abnormal termination, which bypasses
/// normalization entirely.
#[derive(PartialEq, Eq, Debug)]
pub enum MethodExecution<S, T, E> {
    /// The body ran to completion: the state it left behind and its
    /// normalized success-or-error outcome.
    Returned(S, Result<T, E>),
    /// The body terminated abnormally with a plain diagnostic.
    Aborted(String),
}

/// What one invocation surfaces to the caller.
#[derive(PartialEq, Eq, Debug)]
pub enum CallResult<T> {
    /// The success value, handed on to the codec collaborator.
    Success(T),
    /// The failure envelope, rendered by the structured-text codec.
    HandledFailure(String),
    /// The raw abort diagnostic.
    Aborted(String),
}

/// The durable end of one invocation: the state that survives it, the
/// terminal it reached, and what the caller sees.
#[derive(PartialEq, Eq, Debug)]
pub struct DispatchOutcome<S, T> {
    /// The state after the call: the proposed state where mutations
    /// commit, the pre-call snapshot where they are discarded.
    pub state: S,
    /// The terminal the invocation reached.
    pub terminal: DispatchTerminal,
    /// What is surfaced to the caller.
    pub result: CallResult<T>,
}

/// The terminal an execution reaches under a given persist-on-error
/// policy.
pub open spec fn spec_terminal<S, T, E>(
    executed: MethodExecution<S, T, E>,
    persist_on_error: bool,
) -> DispatchTerminal {
    match executed {
        MethodExecution::Aborted(_) => DispatchTerminal::Aborted,
        MethodExecution::Returned(_, outcome) => match outcome {
            Result::Ok(_) => DispatchTerminal::Committed,
            Result::Err(_) => if persist_on_error {
                DispatchTerminal::CommittedWithError
            } else {
                DispatchTerminal::RolledBack
            },
        },
    }
}

/// The diagnostic text a handled failure surfaces: its envelope,
/// rendered by the structured-text codec.
pub open spec fn spec_failure_text<E: ContractErrorTrait>(e: E) -> Seq<char> {
    json_text_of(spec_serialize_envelope(spec_wrapped(e)))
}

/// Decide one invocation's end: given the pre-call snapshot and how
/// the body ended, write back or discard the pending mutations and
/// surface the success value, the failure envelope, or the abort
/// diagnostic.
pub fn dispatch<S, T, E: ContractErrorTrait>(
    snapshot: S,
    executed: MethodExecution<S, T, E>,
) -> (r: DispatchOutcome<S, T>)
    ensures
        r.terminal == spec_terminal(executed, E::spec_persist_on_error()),
        (match executed {
            MethodExecution::Aborted(msg) => {
                &&& r.state == snapshot
                &&& r.result == CallResult::<T>::Aborted(msg)
            },
            MethodExecution::Returned(proposed, outcome) => match outcome {
                Result::Ok(v) => {
                    &&& r.state == proposed
                    &&& r.result == CallResult::Success(v)
                },
                Result::Err(e) => {
                    &&& r.state == if E::spec_persist_on_error() {
                        proposed
                    } else {
                        snapshot
                    }
                    &&& (r.result matches CallResult::HandledFailure(s) && s@
                        == spec_failure_text(e))
                },
            },
        }),
{
    match executed {
        MethodExecution::Aborted(msg) => DispatchOutcome {
            state: snapshot,
            terminal: DispatchTerminal::Aborted,
            result: CallResult::Aborted(msg),
        },
        MethodExecution::Returned(proposed, outcome) => match outcome {
            Ok(v) => DispatchOutcome {
                state: proposed,
                terminal: DispatchTerminal::Committed,
                result: CallResult::Success(v),
            },
            Err(e) => {
                let persist = e.persist_on_error();
                let env = e.wrap();
                let text = to_json_text(&serialize_envelope(env));
                if persist {
                    DispatchOutcome {
                        state: proposed,
                        terminal: DispatchTerminal::CommittedWithError,
                        result: CallResult::HandledFailure(text),
                    }
                } else {
                    DispatchOutcome {
                        state: snapshot,
                        terminal: DispatchTerminal::RolledBack,
                        result: CallResult::HandledFailure(text),
                    }
                }
            },
        },
    }
}

/// A method under a plain or implicit return policy can never reach a
/// failure terminal through normalization: its outcome comes from the
/// generic candidate, which always succeeds, so only `Committed` — or
/// `Aborted`, which bypasses normalization — is reachable, whatever
/// any persist-on-error policy says.
pub proof fn lemma_plain_policy_never_fails<S, T>(proposed: S, raw: T, persist_on_error: bool)
    ensures
        spec_terminal(
            MethodExecution::Returned(
                proposed,
                <PlainReturn<T> as ContractReturnNormalize<BaseError>>::spec_normalize(raw),
            ),
            persist_on_error,
        ) == DispatchTerminal::Committed,
{
}

/// Abnormal termination always discards state: whatever the outcome or
/// the persist-on-error policy would have said, the terminal is
/// `Aborted`.
pub proof fn lemma_abort_always_discards<S, T, E>(msg: String, persist_on_error: bool)
    ensures
        spec_terminal(
            MethodExecution::<S, T, E>::Aborted(msg),
            persist_on_error,
        ) == DispatchTerminal::Aborted,
{
}

} // verus!
