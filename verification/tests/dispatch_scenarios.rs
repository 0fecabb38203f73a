use near_sdk_core::contract_error::BaseError;
use near_sdk_core::contract_error::ContractReturnNormalize;
use near_sdk_core::contract_error::FallibleReturn;
use near_sdk_core::contract_error::PlainReturn;
use near_sdk_core::dispatch::CallResult;
use near_sdk_core::dispatch::DispatchTerminal;
use near_sdk_core::dispatch::MethodExecution;
use near_sdk_core::dispatch::dispatch;
use near_sdk_core::error_handling::Contract;
use near_sdk_core::error_handling::MyErrorEnum;
use near_sdk_core::standard_errors::InvalidArgument;

fn failure_json(result: &CallResult<u32>) -> serde_json::Value {
    match result {
        CallResult::HandledFailure(s) => serde_json::from_str(s).unwrap(),
        _ => panic!("expected a handled failure"),
    }
}

#[test]
fn normalization_passes_fallible_results_through() {
    let ok: Result<u32, InvalidArgument> = Ok(5);
    assert_eq!(FallibleReturn::new().normalize_return(ok), Ok(5));
    let err: Result<u32, InvalidArgument> =
        Err(InvalidArgument { message: String::from("no") });
    let normalized = FallibleReturn::new().normalize_return(err);
    assert_eq!(normalized.unwrap_err().message, "no");
}

#[test]
fn normalization_of_plain_values_always_succeeds() {
    let normalized: Result<u32, BaseError> = PlainReturn::new().normalize_return(7);
    assert_eq!(normalized, Ok(7));
    let unit: Result<(), BaseError> = PlainReturn::new().normalize_return(());
    assert!(unit.is_ok());
}

#[test]
fn plain_method_called_twice_keeps_state() {
    // A method under the plain policy, no markers, called twice: the
    // first call returns 1, the second 2, and state persists across.
    let snapshot = Contract::new();

    let mut working = snapshot;
    let raw = working.inc_just_simple(false);
    let normalized: Result<u32, BaseError> = PlainReturn::new().normalize_return(raw);
    let first = dispatch(snapshot, MethodExecution::Returned(working, normalized));
    assert_eq!(first.terminal, DispatchTerminal::Committed);
    assert_eq!(first.result, CallResult::Success(1));
    assert_eq!(first.state.get_value(), 1);

    let snapshot2 = first.state;
    let mut working2 = snapshot2;
    let raw2 = working2.inc_just_simple(false);
    let normalized2: Result<u32, BaseError> = PlainReturn::new().normalize_return(raw2);
    let second = dispatch(snapshot2, MethodExecution::Returned(working2, normalized2));
    assert_eq!(second.terminal, DispatchTerminal::Committed);
    assert_eq!(second.result, CallResult::Success(2));
    assert_eq!(second.state.get_value(), 2);
}

#[test]
fn failing_call_with_non_persisting_error_rolls_back() {
    // The explicit policy with a non-persisting error: the failure is
    // surfaced as an envelope and the state shows no trace of the
    // failed attempt.
    let snapshot = Contract::new();

    let mut working = snapshot;
    let raw = working.inc_handle_result(true);
    let normalized = FallibleReturn::new().normalize_return(raw);
    let failed = dispatch(snapshot, MethodExecution::Returned(working, normalized));
    assert_eq!(failed.terminal, DispatchTerminal::RolledBack);
    assert_eq!(failed.state.get_value(), 0);
    let parsed = failure_json(&failed.result);
    let expected: serde_json::Value = serde_json::from_str(
        "{\"error_type\":\"near_sdk_core::standard_errors::InvalidArgument\",\
         \"value\":{\"message\":\"error in inc_handle_result\"}}",
    )
    .unwrap();
    assert_eq!(parsed, expected);

    let snapshot2 = failed.state;
    let mut working2 = snapshot2;
    let raw2 = working2.inc_handle_result(false);
    let normalized2 = FallibleReturn::new().normalize_return(raw2);
    let succeeded = dispatch(snapshot2, MethodExecution::Returned(working2, normalized2));
    assert_eq!(succeeded.terminal, DispatchTerminal::Committed);
    assert_eq!(succeeded.result, CallResult::Success(1));
    assert_eq!(succeeded.state.get_value(), 1);
}

#[test]
fn failing_call_with_persisting_error_commits_state() {
    // Same failure, but the error type opts into persist-on-error:
    // the envelope is still surfaced, yet the counter has advanced.
    let snapshot = Contract::new();

    let mut working = snapshot;
    let raw = working.inc_persist_on_err(true);
    let normalized = FallibleReturn::new().normalize_return(raw);
    let failed = dispatch(snapshot, MethodExecution::Returned(working, normalized));
    assert_eq!(failed.terminal, DispatchTerminal::CommittedWithError);
    assert_eq!(failed.state.get_value(), 1);
    let parsed = failure_json(&failed.result);
    let expected: serde_json::Value = serde_json::from_str(
        "{\"error_type\":\"error_handling::MyErrorEnum\",\"value\":\"X\"}",
    )
    .unwrap();
    assert_eq!(parsed, expected);
}

#[test]
fn struct_error_payload_is_wrapped_with_its_fields() {
    let snapshot = Contract::new();

    let mut working = snapshot;
    let raw = working.inc_just_result(true);
    let normalized = FallibleReturn::new().normalize_return(raw);
    let failed = dispatch(snapshot, MethodExecution::Returned(working, normalized));
    assert_eq!(failed.terminal, DispatchTerminal::RolledBack);
    assert_eq!(failed.state.get_value(), 0);
    let parsed = failure_json(&failed.result);
    let expected: serde_json::Value = serde_json::from_str(
        "{\"error_type\":\"error_handling::MyErrorStruct\",\"value\":{\"x\":5}}",
    )
    .unwrap();
    assert_eq!(parsed, expected);
}

#[test]
fn method_without_return_type_commits_with_empty_payload() {
    // No declared return type and no markers: success with an empty
    // payload, and the mutation is committed.
    let snapshot = Contract::new();

    let mut working = snapshot;
    working.inc_just_simple(false);
    let normalized: Result<(), BaseError> = PlainReturn::new().normalize_return(());
    let done = dispatch(snapshot, MethodExecution::Returned(working, normalized));
    assert_eq!(done.terminal, DispatchTerminal::Committed);
    assert_eq!(done.result, CallResult::Success(()));
    assert_eq!(done.state.get_value(), 1);
}

#[test]
fn abort_discards_state_whatever_the_error_policy_says() {
    // Abnormal termination bypasses normalization: the state reverts
    // even though the error type in the signature persists on error.
    let snapshot = Contract::new();

    let executed: MethodExecution<Contract, u32, MyErrorEnum> =
        MethodExecution::Aborted(String::from("Error"));
    let aborted = dispatch(snapshot, executed);
    assert_eq!(aborted.terminal, DispatchTerminal::Aborted);
    assert_eq!(aborted.state.get_value(), 0);
    assert_eq!(aborted.result, CallResult::Aborted(String::from("Error")));
}
