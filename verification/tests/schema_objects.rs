use near_sdk_core::contract_error::FallibleReturn;
use near_sdk_core::contract_error::PlainReturn;
use near_sdk_core::error_handling::MyErrorStruct;
use near_sdk_core::schema::BorshSerializationFormat;
use near_sdk_core::schema::ContractReturnSchema;
use near_sdk_core::schema::JsonSerializationFormat;

#[test]
fn json_schema_matches_the_generator() {
    let derived = PlainReturn::<u32>::new().schema(JsonSerializationFormat);
    let direct = schemars::gen::SchemaGenerator::default().subschema_for::<u32>();
    assert_eq!(derived, direct);
}

#[test]
fn borsh_schema_matches_the_container() {
    let derived = PlainReturn::<u32>::new().schema(BorshSerializationFormat);
    let direct = borsh::schema_container_of::<u32>();
    assert_eq!(derived, direct);
}

#[test]
fn both_candidates_describe_the_same_success_type() {
    // The fallible-result candidate for Result<u32, E> and the generic
    // candidate for u32 derive the same schema: both operate over the
    // success type u32.
    let plain = PlainReturn::<u32>::new().schema(JsonSerializationFormat);
    let through_result =
        FallibleReturn::<u32, MyErrorStruct>::new().schema(JsonSerializationFormat);
    assert_eq!(plain, through_result);

    let plain_borsh = PlainReturn::<u32>::new().schema(BorshSerializationFormat);
    let through_result_borsh =
        FallibleReturn::<u32, MyErrorStruct>::new().schema(BorshSerializationFormat);
    assert_eq!(plain_borsh, through_result_borsh);
}
