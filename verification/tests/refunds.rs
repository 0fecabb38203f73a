use near_sdk_core::nft_utils::ApprovalNotSupported;
use near_sdk_core::nft_utils::assert_at_least_one_yocto;
use near_sdk_core::nft_utils::bytes_for_approved_account_id;
use near_sdk_core::nft_utils::refund_approved_account_ids;
use near_sdk_core::nft_utils::refund_approved_account_ids_iter;
use near_sdk_core::nft_utils::refund_deposit;
use near_sdk_core::nft_utils::refund_deposit_to_account;
use near_sdk_core::token::AccountId;
use near_sdk_core::token::NearToken;
use near_sdk_core::token::PromiseAction;
use near_sdk_core::token::u128_to_decimal;
use near_sdk_core::token::validate_account_str;

fn account(s: &str) -> AccountId {
    AccountId::new(String::from(s)).unwrap()
}

#[test]
fn account_id_rules() {
    assert!(validate_account_str("alice.near"));
    assert!(validate_account_str("a-b_c.d0"));
    assert!(!validate_account_str("a"));
    assert!(!validate_account_str(""));
    assert!(!validate_account_str("Alice.near"));
    assert!(!validate_account_str(".alice"));
    assert!(!validate_account_str("alice."));
    assert!(!validate_account_str("a..b"));
    assert!(!validate_account_str("a b"));
    let too_long = "a".repeat(65);
    assert!(!validate_account_str(&too_long));
    assert!(validate_account_str(&"a".repeat(64)));
    assert!(AccountId::new(String::from("not valid!")).is_err());
    assert_eq!(account("alice.near").as_str(), "alice.near");
}

#[test]
fn approval_record_byte_count() {
    // The identifier's bytes plus a 4-byte length prefix plus the
    // 8-byte approval identifier.
    assert_eq!(bytes_for_approved_account_id(&account("alice.near")), 10 + 4 + 8);
    assert_eq!(bytes_for_approved_account_id(&account("ab")), 2 + 4 + 8);
}

#[test]
fn refund_for_released_approvals() {
    let accounts = vec![account("alice.near"), account("bob.near")];
    // 22 + 20 bytes released, at 3 units a byte.
    let p = refund_approved_account_ids_iter(
        account("owner.near"),
        &accounts,
        NearToken::from_yoctonear(3),
    );
    assert_eq!(p.account_id.as_str(), "owner.near");
    assert_eq!(p.actions, vec![PromiseAction::Transfer(NearToken::from_yoctonear(126))]);

    let q = refund_approved_account_ids(
        account("owner.near"),
        &accounts,
        NearToken::from_yoctonear(3),
    );
    assert_eq!(q.actions, p.actions);
}

#[test]
fn refund_of_empty_approval_list_is_zero() {
    let p = refund_approved_account_ids_iter(
        account("owner.near"),
        &Vec::new(),
        NearToken::from_yoctonear(10),
    );
    assert_eq!(p.actions, vec![PromiseAction::Transfer(NearToken::from_yoctonear(0))]);
}

#[test]
fn saturating_token_arithmetic() {
    let big = NearToken::from_yoctonear(u128::MAX / 2);
    assert_eq!(big.saturating_mul(3).as_yoctonear(), u128::MAX);
    assert_eq!(NearToken::from_yoctonear(6).saturating_mul(7).as_yoctonear(), 42);
    let small = NearToken::from_yoctonear(5);
    assert_eq!(small.saturating_sub(NearToken::from_yoctonear(7)).as_yoctonear(), 0);
    assert_eq!(small.saturating_sub(NearToken::from_yoctonear(2)).as_yoctonear(), 3);
}

#[test]
fn deposit_refund_is_transferred_when_large_enough() {
    // 10 bytes at 2 units each, 30 attached: 10 units come back.
    let r = refund_deposit_to_account(
        10,
        account("caller.near"),
        NearToken::from_yoctonear(2),
        NearToken::from_yoctonear(30),
    )
    .unwrap();
    let p = r.unwrap();
    assert_eq!(p.account_id.as_str(), "caller.near");
    assert_eq!(p.actions, vec![PromiseAction::Transfer(NearToken::from_yoctonear(10))]);
}

#[test]
fn tiny_deposit_refund_is_kept() {
    // A refund of exactly one smallest unit is not transferred.
    let r = refund_deposit_to_account(
        10,
        account("caller.near"),
        NearToken::from_yoctonear(2),
        NearToken::from_yoctonear(21),
    )
    .unwrap();
    assert!(r.is_none());
}

#[test]
fn insufficient_deposit_is_refused() {
    let r = refund_deposit(
        10,
        account("caller.near"),
        NearToken::from_yoctonear(2),
        NearToken::from_yoctonear(19),
    );
    assert!(r.is_err());
    let text = r.unwrap_err().into_diagnostic_string();
    let parsed: serde_json::Value = serde_json::from_str(&text).unwrap();
    assert_eq!(
        parsed["error_type"],
        serde_json::Value::String(String::from(
            "near_sdk_core::standard_errors::InsufficientBalance"
        ))
    );
    assert_eq!(
        parsed["value"]["message"],
        serde_json::Value::String(String::from("Must attach 20 yoctoNEAR to cover storage"))
    );
}

#[test]
fn decimal_rendering() {
    assert_eq!(u128_to_decimal(0), "0");
    assert_eq!(u128_to_decimal(7), "7");
    assert_eq!(u128_to_decimal(10), "10");
    assert_eq!(u128_to_decimal(1234567890), "1234567890");
    assert_eq!(
        u128_to_decimal(u128::MAX),
        "340282366920938463463374607431768211455"
    );
}

#[test]
fn one_yocto_requirement() {
    assert!(assert_at_least_one_yocto(NearToken::from_yoctonear(1)).is_ok());
    assert!(assert_at_least_one_yocto(NearToken::from_yoctonear(0)).is_err());
}

#[test]
fn approval_not_supported_keeps_its_message() {
    let e = ApprovalNotSupported::new("no approvals here");
    assert_eq!(e.message, "no approvals here");
}
