//! An example state object exercising every return-handling policy:
//! a counter whose methods succeed, fail with and without the
//! persist-on-error capability, or terminate abnormally.

use vstd::prelude::*;

use crate::contract_error::ContractErrorTrait;
use crate::envelope::EnvelopeRepr;
use crate::envelope::ErrorEnvelope;
use crate::envelope::TextRepr;
use crate::envelope::TextValue;

verus! {

/// An example error without any payload field; it opts into the
/// persist-on-error capability, so failing with it still writes the
/// state back.
#[derive(Clone, Copy, PartialEq, Eq, Structural, Debug)]
pub enum MyErrorEnum {
    X,
}

impl ContractErrorTrait for MyErrorEnum {
    open spec fn spec_error_type() -> Seq<char> {
        "error_handling::MyErrorEnum"@
    }

    open spec fn spec_persist_on_error() -> bool {
        true
    }

    open spec fn spec_payload(&self) -> TextRepr {
        TextRepr::Text("X"@)
    }

    fn error_type(&self) -> (r: &'static str) {
        "error_handling::MyErrorEnum"
    }

    fn persist_on_error(&self) -> (r: bool) {
        true
    }

    fn wrap(&self) -> (r: ErrorEnvelope) {
        ErrorEnvelope {
            error_type: String::from_str("error_handling::MyErrorEnum"),
            value: TextValue::Text(String::from_str("X")),
        }
    }
}

/// An example error with one numeric payload field; failing with it
/// rolls the state back, as every error does by default.
#[derive(Clone, Copy, PartialEq, Eq, Structural, Debug)]
pub struct MyErrorStruct {
    pub x: u32,
}

impl ContractErrorTrait for MyErrorStruct {
    open spec fn spec_error_type() -> Seq<char> {
        "error_handling::MyErrorStruct"@
    }

    open spec fn spec_persist_on_error() -> bool {
        false
    }

    open spec fn spec_payload(&self) -> TextRepr {
        TextRepr::Fields(
            seq![
                crate::envelope::FieldRepr { name: "x"@, value: TextRepr::UInt(self.x as u64) },
            ],
        )
    }

    fn error_type(&self) -> (r: &'static str) {
        "error_handling::MyErrorStruct"
    }

    fn persist_on_error(&self) -> (r: bool) {
        false
    }

    fn wrap(&self) -> (r: ErrorEnvelope) {
        let mut fields: Vec<crate::envelope::TextField> = Vec::new();
        fields.push(
            crate::envelope::TextField {
                name: String::from_str("x"),
                value: TextValue::UInt(self.x as u64),
            },
        );
        let r = ErrorEnvelope {
            error_type: String::from_str("error_handling::MyErrorStruct"),
            value: TextValue::Fields(fields),
        };
        proof {
            let lhs = crate::envelope::fields_repr(fields@);
            let rhs = self.spec_payload()->Fields_0;
            assert(lhs.len() == 1);
            assert(lhs[0] =~~= rhs[0]);
            assert(lhs =~~= rhs);
            assert(r.deep_view() =~= (EnvelopeRepr {
                error_type: Self::spec_error_type(),
                value: self.spec_payload(),
            }));
        }
        r
    }
}

/// The example state: one counter value.
#[derive(Clone, Copy, PartialEq, Eq, Structural, Debug, Default)]
pub struct Contract {
    /// The counter the methods advance.
    pub value: u32,
}

impl Contract {
    /// The constructor: a counter at zero.
    pub fn new() -> (r: Self)
        ensures
            r.value == 0,
    {
        Self { value: 0 }
    }

    /// Advance the counter, then fail exactly when asked to: the
    /// explicit-result policy's method. Its error does not persist, so
    /// a failure leaves the stored state unchanged.
    pub fn inc_handle_result(&mut self, is_error: bool) -> (r: Result<
        u32,
        crate::standard_errors::InvalidArgument,
    >)
        requires
            old(self).value < u32::MAX,
        ensures
            final(self).value == old(self).value + 1,
            (match r {
                Result::Ok(v) => !is_error && v == final(self).value,
                Result::Err(e) => is_error && e.message@ == "error in inc_handle_result"@,
            }),
    {
        self.value = self.value + 1;
        if is_error {
            Err(
                crate::standard_errors::InvalidArgument {
                    message: String::from_str("error in inc_handle_result"),
                },
            )
        } else {
            Ok(self.value)
        }
    }

    /// Advance the counter, then fail exactly when asked to, with an
    /// error type that persists: a failure still writes the advanced
    /// counter back.
    pub fn inc_persist_on_err(&mut self, is_error: bool) -> (r: Result<u32, MyErrorEnum>)
        requires
            old(self).value < u32::MAX,
        ensures
            final(self).value == old(self).value + 1,
            (match r {
                Result::Ok(v) => !is_error && v == final(self).value,
                Result::Err(e) => is_error && e == MyErrorEnum::X,
            }),
    {
        self.value = self.value + 1;
        if is_error {
            Err(MyErrorEnum::X)
        } else {
            Ok(self.value)
        }
    }

    /// Advance the counter, then fail exactly when asked to, with a
    /// plain non-persisting error carrying a numeric payload.
    pub fn inc_just_result(&mut self, is_error: bool) -> (r: Result<u32, MyErrorStruct>)
        requires
            old(self).value < u32::MAX,
        ensures
            final(self).value == old(self).value + 1,
            (match r {
                Result::Ok(v) => !is_error && v == final(self).value,
                Result::Err(e) => is_error && e == (MyErrorStruct { x: 5 }),
            }),
    {
        self.value = self.value + 1;
        if is_error {
            Err(MyErrorStruct { x: 5 })
        } else {
            Ok(self.value)
        }
    }

    /// Advance the counter and return it: the plain policy's method.
    /// The abnormal-termination path the host offers on error input is
    /// left to the entry point, which aborts instead of calling this.
    pub fn inc_just_simple(&mut self, is_error: bool) -> (r: u32)
        requires
            old(self).value < u32::MAX,
            !is_error,
        ensures
            final(self).value == old(self).value + 1,
            r == final(self).value,
    {
        self.value = self.value + 1;
        self.value
    }

    /// Read the counter.
    pub fn get_value(&self) -> (r: u32)
        ensures
            r == self.value,
    {
        self.value
    }
}

/// A state type whose constructor returns the whole state: the
/// construction pattern that is only legal on a constructor.
#[derive(Clone, Copy, PartialEq, Eq, Structural, Debug, Default)]
pub struct Ident {
    /// The stored value.
    pub value: u32,
}

impl Ident {
    /// A fresh state with the value at zero.
    pub fn plain_ret() -> (r: Self)
        ensures
            r.value == 0,
    {
        Ident { value: 0 }
    }
}

} // verus!
