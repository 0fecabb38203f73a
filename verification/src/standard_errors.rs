//! The standard error types every state object can fail with.
//!
//! Each type opts into the error capability: its type tag is derived
//! from the defining location and the type's name alone, and none of
//! them asks for state to be written back on failure.

use vstd::prelude::*;

use crate::contract_error::ContractErrorTrait;
use crate::envelope::EnvelopeRepr;
use crate::envelope::ErrorEnvelope;
use crate::envelope::TextRepr;
use crate::envelope::message_payload;
use crate::envelope::spec_message_payload;

verus! {

/// An argument did not have the expected shape or value.
#[derive(Clone, PartialEq, Eq, Debug)]
pub struct InvalidArgument {
    pub message: String,
}

impl ContractErrorTrait for InvalidArgument {
    open spec fn spec_error_type() -> Seq<char> {
        "near_sdk_core::standard_errors::InvalidArgument"@
    }

    open spec fn spec_persist_on_error() -> bool {
        false
    }

    open spec fn spec_payload(&self) -> TextRepr {
        spec_message_payload(self.message@)
    }

    fn error_type(&self) -> (r: &'static str) {
        "near_sdk_core::standard_errors::InvalidArgument"
    }

    fn persist_on_error(&self) -> (r: bool) {
        false
    }

    fn wrap(&self) -> (r: ErrorEnvelope) {
        let r = ErrorEnvelope {
            error_type: String::from_str("near_sdk_core::standard_errors::InvalidArgument"),
            value: message_payload(self.message.clone()),
        };
        proof {
            assert(r.deep_view() =~= (EnvelopeRepr {
                error_type: Self::spec_error_type(),
                value: self.spec_payload(),
            }));
        }
        r
    }
}

/// A method other than a constructor ran before any state existed.
#[derive(Clone, PartialEq, Eq, Debug)]
pub struct ContractNotInitialized {
    pub message: String,
}

impl ContractNotInitialized {
    /// The standard not-initialized failure with its fixed message.
    pub fn new() -> (r: Self)
        ensures
            r.message@ == "The contract is not initialized"@,
    {
        Self { message: String::from_str("The contract is not initialized") }
    }
}

impl ContractErrorTrait for ContractNotInitialized {
    open spec fn spec_error_type() -> Seq<char> {
        "near_sdk_core::standard_errors::ContractNotInitialized"@
    }

    open spec fn spec_persist_on_error() -> bool {
        false
    }

    open spec fn spec_payload(&self) -> TextRepr {
        spec_message_payload(self.message@)
    }

    fn error_type(&self) -> (r: &'static str) {
        "near_sdk_core::standard_errors::ContractNotInitialized"
    }

    fn persist_on_error(&self) -> (r: bool) {
        false
    }

    fn wrap(&self) -> (r: ErrorEnvelope) {
        let r = ErrorEnvelope {
            error_type: String::from_str("near_sdk_core::standard_errors::ContractNotInitialized"),
            value: message_payload(self.message.clone()),
        };
        proof {
            assert(r.deep_view() =~= (EnvelopeRepr {
                error_type: Self::spec_error_type(),
                value: self.spec_payload(),
            }));
        }
        r
    }
}

/// A required condition did not hold.
#[derive(Clone, PartialEq, Eq, Debug)]
pub struct RequireFailed {
    pub message: String,
}

impl RequireFailed {
    /// The standard failed-requirement failure with its fixed message.
    pub fn new() -> (r: Self)
        ensures
            r.message@ == "require! assertion failed"@,
    {
        Self { message: String::from_str("require! assertion failed") }
    }
}

impl ContractErrorTrait for RequireFailed {
    open spec fn spec_error_type() -> Seq<char> {
        "near_sdk_core::standard_errors::RequireFailed"@
    }

    open spec fn spec_persist_on_error() -> bool {
        false
    }

    open spec fn spec_payload(&self) -> TextRepr {
        spec_message_payload(self.message@)
    }

    fn error_type(&self) -> (r: &'static str) {
        "near_sdk_core::standard_errors::RequireFailed"
    }

    fn persist_on_error(&self) -> (r: bool) {
        false
    }

    fn wrap(&self) -> (r: ErrorEnvelope) {
        let r = ErrorEnvelope {
            error_type: String::from_str("near_sdk_core::standard_errors::RequireFailed"),
            value: message_payload(self.message.clone()),
        };
        proof {
            assert(r.deep_view() =~= (EnvelopeRepr {
                error_type: Self::spec_error_type(),
                value: self.spec_payload(),
            }));
        }
        r
    }
}

/// An asynchronous follow-up action did not complete.
#[derive(Clone, PartialEq, Eq, Debug)]
pub struct PromiseFailed {
    pub message: String,
    pub promise_index: Option<u64>,
}

impl PromiseFailed {
    /// The standard failed-promise failure with its fixed message and
    /// the index of the action that failed, where one is known.
    pub fn new(promise_index: Option<u64>) -> (r: Self)
        ensures
            r.message@ == "Promise failed"@,
            r.promise_index == promise_index,
    {
        Self { message: String::from_str("Promise failed"), promise_index }
    }
}

impl ContractErrorTrait for PromiseFailed {
    open spec fn spec_error_type() -> Seq<char> {
        "near_sdk_core::standard_errors::PromiseFailed"@
    }

    open spec fn spec_persist_on_error() -> bool {
        false
    }

    open spec fn spec_payload(&self) -> TextRepr {
        TextRepr::Fields(
            seq![
                crate::envelope::FieldRepr {
                    name: "message"@,
                    value: TextRepr::Text(self.message@),
                },
                crate::envelope::FieldRepr {
                    name: "promise_index"@,
                    value: match self.promise_index {
                        Option::Some(i) => TextRepr::UInt(i),
                        Option::None => TextRepr::Null,
                    },
                },
            ],
        )
    }

    fn error_type(&self) -> (r: &'static str) {
        "near_sdk_core::standard_errors::PromiseFailed"
    }

    fn persist_on_error(&self) -> (r: bool) {
        false
    }

    fn wrap(&self) -> (r: ErrorEnvelope) {
        let mut fields: Vec<crate::envelope::TextField> = Vec::new();
        fields.push(
            crate::envelope::TextField {
                name: String::from_str("message"),
                value: crate::envelope::TextValue::Text(self.message.clone()),
            },
        );
        let index_value = match self.promise_index {
            Some(i) => crate::envelope::TextValue::UInt(i),
            None => crate::envelope::TextValue::Null,
        };
        fields.push(
            crate::envelope::TextField {
                name: String::from_str("promise_index"),
                value: index_value,
            },
        );
        let r = ErrorEnvelope {
            error_type: String::from_str("near_sdk_core::standard_errors::PromiseFailed"),
            value: crate::envelope::TextValue::Fields(fields),
        };
        proof {
            let lhs = crate::envelope::fields_repr(fields@);
            let rhs = self.spec_payload()->Fields_0;
            assert(lhs.len() == 2);
            assert(lhs[0] =~~= rhs[0]);
            assert(lhs[1] =~~= rhs[1]);
            assert(lhs =~~= rhs);
            assert(r.deep_view().value =~~= self.spec_payload());
            assert(r.deep_view() =~= (EnvelopeRepr {
                error_type: Self::spec_error_type(),
                value: self.spec_payload(),
            }));
        }
        r
    }
}

/// The deposit attached to a call does not cover what the method needs.
#[derive(Clone, PartialEq, Eq, Debug)]
pub struct InsufficientBalance {
    pub message: String,
}

impl InsufficientBalance {
    /// The standard insufficient-deposit failure, with a caller-chosen
    /// message or the fixed default.
    pub fn new(message: Option<&str>) -> (r: Self)
        ensures
            (match message {
                Option::Some(m) => r.message@ == m@,
                Option::None => r.message@ == "Insufficient balance"@,
            }),
    {
        match message {
            Some(m) => Self { message: String::from_str(m) },
            None => Self { message: String::from_str("Insufficient balance") },
        }
    }
}

impl ContractErrorTrait for InsufficientBalance {
    open spec fn spec_error_type() -> Seq<char> {
        "near_sdk_core::standard_errors::InsufficientBalance"@
    }

    open spec fn spec_persist_on_error() -> bool {
        false
    }

    open spec fn spec_payload(&self) -> TextRepr {
        spec_message_payload(self.message@)
    }

    fn error_type(&self) -> (r: &'static str) {
        "near_sdk_core::standard_errors::InsufficientBalance"
    }

    fn persist_on_error(&self) -> (r: bool) {
        false
    }

    fn wrap(&self) -> (r: ErrorEnvelope) {
        let r = ErrorEnvelope {
            error_type: String::from_str("near_sdk_core::standard_errors::InsufficientBalance"),
            value: message_payload(self.message.clone()),
        };
        proof {
            assert(r.deep_view() =~= (EnvelopeRepr {
                error_type: Self::spec_error_type(),
                value: self.spec_payload(),
            }));
        }
        r
    }
}

} // verus!
