//! Storage byte-accounting and deposit-refund utilities for the
//! non-fungible-token approval standard.
//!
//! The host hands these functions the attached deposit, the byte cost
//! of storage and the calling account; they compute what to refund and
//! hand back the transfer to schedule.

use vstd::prelude::*;

use crate::contract_error::BaseError;
use crate::contract_error::ContractErrorTrait;
use crate::envelope::EnvelopeRepr;
use crate::envelope::ErrorEnvelope;
use crate::envelope::TextRepr;
use crate::envelope::message_payload;
use crate::envelope::spec_message_payload;
use crate::envelope::spec_serialize_envelope;
use crate::standard_errors::InsufficientBalance;
use crate::token::AccountId;
use crate::token::NearToken;
use crate::token::Promise;
use crate::token::PromiseAction;
use crate::token::spec_saturating_mul;

verus! {

/// The storage an approval record occupies: the account identifier's
/// bytes, a 4-byte length prefix, and the 8-byte approval identifier
/// stored beside it.
pub open spec fn spec_bytes_for_account(s: Seq<char>) -> int {
    s.len() as int + 4 + 8
}

/// How many bytes of storage one approved account's record occupies.
pub fn bytes_for_approved_account_id(account_id: &AccountId) -> (r: u64)
    ensures
        r == spec_bytes_for_account(account_id@),
{
    let n = account_id.len();
    n as u64 + 4 + 8
}

/// The total storage a list of approval records occupies.
pub open spec fn spec_storage_released(accounts: Seq<AccountId>) -> int
    decreases accounts.len(),
{
    if accounts.len() == 0 {
        0
    } else {
        spec_storage_released(accounts.drop_last()) + spec_bytes_for_account(accounts.last()@)
    }
}

/// Refund the storage released by removing a list of approvals: one
/// promise transferring the byte cost times the bytes released to the
/// given account.
#[verifier::loop_isolation(false)]
pub fn refund_approved_account_ids_iter(
    account_id: AccountId,
    approved_account_ids: &Vec<AccountId>,
    storage_byte_cost: NearToken,
) -> (r: Promise)
    requires
        approved_account_ids@.len() * 76 <= u64::MAX,
    ensures
        r.account_id == account_id,
        r.actions@ =~= seq![
            PromiseAction::Transfer(
                NearToken {
                    yoctonear: spec_saturating_mul(
                        storage_byte_cost.yoctonear,
                        spec_storage_released(approved_account_ids@) as u128,
                    ),
                },
            ),
        ],
{
    let n = approved_account_ids.len();
    let mut storage_released: u64 = 0;
    let mut i: usize = 0;
    proof {
        assert(approved_account_ids@.subrange(0, 0) =~= Seq::<AccountId>::empty());
    }
    while i < n
        invariant
            0 <= i <= n,
            storage_released == spec_storage_released(approved_account_ids@.subrange(0, i as int)),
            storage_released <= i * 76,
        decreases n - i,
    {
        let a = &approved_account_ids[i];
        proof {
            use_type_invariant(a);
            assert(approved_account_ids@.subrange(0, i as int + 1).drop_last()
                =~= approved_account_ids@.subrange(0, i as int));
            assert(approved_account_ids@.subrange(0, i as int + 1).last()
                == approved_account_ids@[i as int]);
            assert((i + 1) * 76 == i * 76 + 76) by (nonlinear_arith);
        }
        let b = bytes_for_approved_account_id(a);
        storage_released = storage_released + b;
        i = i + 1;
    }
    proof {
        assert(approved_account_ids@.subrange(0, n as int) =~= approved_account_ids@);
    }
    Promise::new(account_id).transfer(storage_byte_cost.saturating_mul(storage_released as u128))
}

/// Refund the storage released by a whole approval mapping: the
/// promise transfers the byte cost of every approved account's record.
pub fn refund_approved_account_ids(
    account_id: AccountId,
    approved_account_ids: &Vec<AccountId>,
    storage_byte_cost: NearToken,
) -> (r: Promise)
    requires
        approved_account_ids@.len() * 76 <= u64::MAX,
    ensures
        r.account_id == account_id,
        r.actions@ =~= seq![
            PromiseAction::Transfer(
                NearToken {
                    yoctonear: spec_saturating_mul(
                        storage_byte_cost.yoctonear,
                        spec_storage_released(approved_account_ids@) as u128,
                    ),
                },
            ),
        ],
{
    refund_approved_account_ids_iter(account_id, approved_account_ids, storage_byte_cost)
}

/// The storage cost a call must cover: byte cost times bytes used,
/// clamped at the largest representable amount.
pub open spec fn spec_required_cost(storage_byte_cost: NearToken, storage_used: u64) -> u128 {
    spec_saturating_mul(storage_byte_cost.yoctonear, storage_used as u128)
}

/// The message an uncovered storage cost is refused with: it names the
/// amount that would have had to be attached.
pub open spec fn spec_insufficient_deposit_msg(required_cost: u128) -> Seq<char> {
    "Must attach "@ + crate::token::spec_decimal(required_cost as int)
        + " yoctoNEAR to cover storage"@
}

/// The envelope an uncovered storage cost surfaces.
pub open spec fn spec_insufficient_deposit_envelope(required_cost: u128) -> TextRepr {
    spec_serialize_envelope(
        EnvelopeRepr {
            error_type: <InsufficientBalance as ContractErrorTrait>::spec_error_type(),
            value: spec_message_payload(spec_insufficient_deposit_msg(required_cost)),
        },
    )
}

/// Refund what remains of the attached deposit after covering the
/// storage a call used, to the given account. Fails exactly when the
/// deposit does not cover the storage cost; a refund of one smallest
/// unit or less is kept rather than transferred.
pub fn refund_deposit_to_account(
    storage_used: u64,
    account_id: AccountId,
    storage_byte_cost: NearToken,
    attached_deposit: NearToken,
) -> (r: Result<Option<Promise>, BaseError>)
    ensures
        (match r {
            Result::Ok(p) => {
                &&& spec_required_cost(storage_byte_cost, storage_used)
                    <= attached_deposit.yoctonear
                &&& {
                    let refund = (attached_deposit.yoctonear - spec_required_cost(
                        storage_byte_cost,
                        storage_used,
                    )) as u128;
                    match p {
                        Option::Some(promise) => {
                            &&& refund > 1
                            &&& promise.account_id == account_id
                            &&& promise.actions@ =~= seq![
                                PromiseAction::Transfer(NearToken { yoctonear: refund }),
                            ]
                        },
                        Option::None => refund <= 1,
                    }
                }
            },
            Result::Err(b) => {
                &&& spec_required_cost(storage_byte_cost, storage_used)
                    > attached_deposit.yoctonear
                &&& b.error.deep_view() == spec_insufficient_deposit_envelope(
                    spec_required_cost(storage_byte_cost, storage_used),
                )
            },
        }),
{
    let required_cost = storage_byte_cost.saturating_mul(storage_used as u128);
    if !(required_cost.as_yoctonear() <= attached_deposit.as_yoctonear()) {
        let mut message = String::from_str("Must attach ");
        let amount = crate::token::u128_to_decimal(required_cost.as_yoctonear());
        message.append(amount.as_str());
        message.append(" yoctoNEAR to cover storage");
        return Err(BaseError::from_error(InsufficientBalance::new(Some(message.as_str()))));
    }
    let refund = attached_deposit.saturating_sub(required_cost);
    if refund.as_yoctonear() > 1 {
        Ok(Some(Promise::new(account_id).transfer(refund)))
    } else {
        Ok(None)
    }
}

/// Refund what remains of the attached deposit to the predecessor
/// account, which is assumed to be the one owed the refund.
pub fn refund_deposit(
    storage_used: u64,
    predecessor_account_id: AccountId,
    storage_byte_cost: NearToken,
    attached_deposit: NearToken,
) -> (r: Result<Option<Promise>, BaseError>)
    ensures
        (match r {
            Result::Ok(p) => {
                &&& spec_required_cost(storage_byte_cost, storage_used)
                    <= attached_deposit.yoctonear
                &&& {
                    let refund = (attached_deposit.yoctonear - spec_required_cost(
                        storage_byte_cost,
                        storage_used,
                    )) as u128;
                    match p {
                        Option::Some(promise) => {
                            &&& refund > 1
                            &&& promise.account_id == predecessor_account_id
                            &&& promise.actions@ =~= seq![
                                PromiseAction::Transfer(NearToken { yoctonear: refund }),
                            ]
                        },
                        Option::None => refund <= 1,
                    }
                }
            },
            Result::Err(b) => {
                &&& spec_required_cost(storage_byte_cost, storage_used)
                    > attached_deposit.yoctonear
                &&& b.error.deep_view() == spec_insufficient_deposit_envelope(
                    spec_required_cost(storage_byte_cost, storage_used),
                )
            },
        }),
{
    refund_deposit_to_account(
        storage_used,
        predecessor_account_id,
        storage_byte_cost,
        attached_deposit,
    )
}

/// Require that at least one smallest unit of the token was attached
/// to the call; fails exactly when nothing was attached.
pub fn assert_at_least_one_yocto(attached_deposit: NearToken) -> (r: Result<(), BaseError>)
    ensures
        r is Ok <==> attached_deposit.yoctonear >= 1,
{
    if attached_deposit.as_yoctonear() >= 1 {
        Ok(())
    } else {
        Err(
            BaseError::from_error(
                InsufficientBalance::new(
                    Some("Requires attached deposit of at least 1 yoctoNEAR"),
                ),
            ),
        )
    }
}

/// The approval extension is not supported by this token.
#[derive(Clone, PartialEq, Eq, Debug)]
pub struct ApprovalNotSupported {
    pub message: String,
}

impl ApprovalNotSupported {
    /// The standard approval-not-supported failure with its message.
    pub fn new(message: &str) -> (r: Self)
        ensures
            r.message@ == message@,
    {
        Self { message: String::from_str(message) }
    }
}

impl ContractErrorTrait for ApprovalNotSupported {
    open spec fn spec_error_type() -> Seq<char> {
        "near_sdk_core::nft_utils::ApprovalNotSupported"@
    }

    open spec fn spec_persist_on_error() -> bool {
        false
    }

    open spec fn spec_payload(&self) -> TextRepr {
        spec_message_payload(self.message@)
    }

    fn error_type(&self) -> (r: &'static str) {
        "near_sdk_core::nft_utils::ApprovalNotSupported"
    }

    fn persist_on_error(&self) -> (r: bool) {
        false
    }

    fn wrap(&self) -> (r: ErrorEnvelope) {
        let r = ErrorEnvelope {
            error_type: String::from_str("near_sdk_core::nft_utils::ApprovalNotSupported"),
            value: message_payload(self.message.clone()),
        };
        proof {
            assert(r.deep_view() =~= (EnvelopeRepr {
                error_type: Self::spec_error_type(),
                value: self.spec_payload(),
            }));
        }
        r
    }
}

} // verus!
