use std::sync::Arc;

use starknet_api::codec::{decode, encode, DecodeError};
use starknet_api::felt::Felt;
use starknet_api::json::{from_json_text, to_json_text};
use starknet_api::rpc_transaction::{
    ContractClass, RPCDeclareTransaction, RPCDeclareTransactionV3, RPCDeployAccountTransaction,
    RPCDeployAccountTransactionV3, RPCInvokeTransaction, RPCInvokeTransactionV3, RPCTransaction,
};
use starknet_api::transaction::{
    create_resource_bounds_for_testing, AccountDeploymentData, Calldata, ClassHash,
    CompiledClassHash, ContractAddress, ContractAddressSalt, DataAvailabilityMode, Nonce,
    PaymasterData, ResourceBounds, ResourceBoundsMapping, Tip, TransactionSignature,
};
use starknet_api::wire::WireValue;

fn felt(x: u64) -> Felt {
    Felt::from_u64(x)
}

fn contract_address(x: u64) -> ContractAddress {
    ContractAddress::try_new(felt(x)).unwrap()
}

fn create_declare_v3() -> RPCDeclareTransaction {
    RPCDeclareTransaction::V3(RPCDeclareTransactionV3 {
        contract_class: ContractClass::default(),
        resource_bounds: create_resource_bounds_for_testing(),
        tip: Tip(1),
        signature: TransactionSignature(vec![felt(1), felt(2)]),
        nonce: Nonce(felt(1)),
        compiled_class_hash: CompiledClassHash(felt(2)),
        sender_address: contract_address(0x3),
        nonce_data_availability_mode: DataAvailabilityMode::L1,
        fee_data_availability_mode: DataAvailabilityMode::L2,
        paymaster_data: PaymasterData(vec![felt(0)]),
        account_deployment_data: AccountDeploymentData(vec![felt(3)]),
    })
}

fn create_deploy_account_v3() -> RPCDeployAccountTransaction {
    RPCDeployAccountTransaction::V3(RPCDeployAccountTransactionV3 {
        resource_bounds: create_resource_bounds_for_testing(),
        tip: Tip::default(),
        contract_address_salt: ContractAddressSalt(felt(0x23)),
        class_hash: ClassHash(felt(2)),
        constructor_calldata: Calldata(Arc::new(vec![felt(0)])),
        nonce: Nonce(felt(0x60)),
        signature: TransactionSignature(vec![felt(2)]),
        nonce_data_availability_mode: DataAvailabilityMode::L2,
        fee_data_availability_mode: DataAvailabilityMode::L1,
        paymaster_data: PaymasterData(vec![felt(2), felt(0)]),
    })
}

fn create_invoke_v3() -> RPCInvokeTransaction {
    RPCInvokeTransaction::V3(RPCInvokeTransactionV3 {
        resource_bounds: create_resource_bounds_for_testing(),
        tip: Tip(50),
        calldata: Calldata(Arc::new(vec![felt(0x2000), felt(0x1000)])),
        sender_address: contract_address(0x53),
        nonce: Nonce(felt(0x32)),
        signature: TransactionSignature::default(),
        nonce_data_availability_mode: DataAvailabilityMode::L1,
        fee_data_availability_mode: DataAvailabilityMode::L1,
        paymaster_data: PaymasterData(vec![felt(2), felt(0)]),
        account_deployment_data: AccountDeploymentData(vec![felt(0x87)]),
    })
}

fn roundtrip(tx: RPCTransaction) {
    let wire = encode(&tx);
    let decoded = decode(&wire).unwrap();
    assert_eq!(tx, decoded);
    let text = to_json_text(&tx);
    let decoded_from_text = from_json_text(&text).unwrap();
    assert_eq!(tx, decoded_from_text);
}

#[test]
fn test_rpc_transactions_declare_v3() {
    roundtrip(RPCTransaction::Declare(create_declare_v3()));
}

#[test]
fn test_rpc_transactions_deploy_account_v3() {
    roundtrip(RPCTransaction::DeployAccount(create_deploy_account_v3()));
}

#[test]
fn test_rpc_transactions_invoke_v3() {
    roundtrip(RPCTransaction::Invoke(create_invoke_v3()));
}

#[test]
fn signature_order_is_preserved() {
    let tx = RPCTransaction::Declare(create_declare_v3());
    let decoded = decode(&encode(&tx)).unwrap();
    match decoded {
        RPCTransaction::Declare(RPCDeclareTransaction::V3(d)) => {
            assert_eq!(d.signature, TransactionSignature(vec![felt(1), felt(2)]));
            assert_ne!(d.signature, TransactionSignature(vec![felt(2), felt(1)]));
        }
        _ => panic!("wrong kind"),
    }
}

/// Removes the named field of a wire object.
fn without_field(w: WireValue, key: &str) -> WireValue {
    match w {
        WireValue::Obj(fields) => WireValue::Obj(
            fields.into_iter().filter(|(k, _)| k != key).collect(),
        ),
        other => other,
    }
}

/// Replaces the value of the named field of a wire object.
fn with_field(w: WireValue, key: &str, val: WireValue) -> WireValue {
    match w {
        WireValue::Obj(fields) => WireValue::Obj(
            fields
                .into_iter()
                .map(|(k, v)| if k == key { (k, copy_wire(&val)) } else { (k, v) })
                .collect(),
        ),
        other => other,
    }
}

fn copy_wire(w: &WireValue) -> WireValue {
    match w {
        WireValue::Str(s) => WireValue::Str(s.clone()),
        WireValue::Num(n) => WireValue::Num(*n),
        WireValue::Arr(items) => WireValue::Arr(items.iter().map(copy_wire).collect()),
        WireValue::Obj(fields) => WireValue::Obj(
            fields.iter().map(|(k, v)| (k.clone(), copy_wire(v))).collect(),
        ),
    }
}

#[test]
fn missing_l2_gas_is_missing_field() {
    let wire = encode(&RPCTransaction::Invoke(create_invoke_v3()));
    let rb = match &wire {
        WireValue::Obj(fields) => fields
            .iter()
            .find(|(k, _)| k == "resource_bounds")
            .map(|(_, v)| copy_wire(v))
            .unwrap(),
        _ => panic!("not an object"),
    };
    let partial_rb = without_field(rb, "l2_gas");
    let mutated = with_field(wire, "resource_bounds", partial_rb);
    assert_eq!(decode(&mutated), Err(DecodeError::MissingField));
}

#[test]
fn da_mode_accepts_only_l1_and_l2() {
    let wire = encode(&RPCTransaction::Invoke(create_invoke_v3()));
    let bad = with_field(
        copy_wire(&wire),
        "nonce_data_availability_mode",
        WireValue::Str("L3".to_owned()),
    );
    assert_eq!(decode(&bad), Err(DecodeError::MalformedField));
    let good = with_field(wire, "nonce_data_availability_mode", WireValue::Str("L2".to_owned()));
    match decode(&good).unwrap() {
        RPCTransaction::Invoke(RPCInvokeTransaction::V3(d)) => {
            assert_eq!(d.nonce_data_availability_mode, DataAvailabilityMode::L2);
        }
        _ => panic!("wrong kind"),
    }
}

#[test]
fn unknown_kind_is_rejected() {
    let wire = encode(&RPCTransaction::Declare(create_declare_v3()));
    let mutated = with_field(wire, "type", WireValue::Str("DEPLOY".to_owned()));
    assert_eq!(decode(&mutated), Err(DecodeError::UnknownVariant));
}

#[test]
fn unknown_version_is_rejected() {
    let wire = encode(&RPCTransaction::Declare(create_declare_v3()));
    let mutated = with_field(wire, "version", WireValue::Str("0x4".to_owned()));
    assert_eq!(decode(&mutated), Err(DecodeError::UnknownVariant));
}

#[test]
fn missing_nonce_is_missing_field() {
    let wire = encode(&RPCTransaction::Declare(create_declare_v3()));
    let mutated = without_field(wire, "nonce");
    assert_eq!(decode(&mutated), Err(DecodeError::MissingField));
}

#[test]
fn wrong_field_type_is_malformed() {
    let wire = encode(&RPCTransaction::Declare(create_declare_v3()));
    let mutated = with_field(wire, "nonce", WireValue::Num(7));
    assert_eq!(decode(&mutated), Err(DecodeError::MalformedField));
    let wire = encode(&RPCTransaction::Declare(create_declare_v3()));
    let mutated = with_field(wire, "tip", WireValue::Str("1".to_owned()));
    assert_eq!(decode(&mutated), Err(DecodeError::MalformedField));
}

#[test]
fn bad_hex_is_malformed() {
    let wire = encode(&RPCTransaction::Declare(create_declare_v3()));
    let mutated = with_field(wire, "nonce", WireValue::Str("0x1".to_owned()));
    assert_eq!(decode(&mutated), Err(DecodeError::MalformedField));
}

#[test]
fn declare_never_decodes_as_another_kind() {
    let wire = encode(&RPCTransaction::Declare(create_declare_v3()));
    match decode(&wire).unwrap() {
        RPCTransaction::Declare(_) => {}
        _ => panic!("kind changed across the round trip"),
    }
}

#[test]
fn resource_bounds_fixture_has_expected_values() {
    let rb = create_resource_bounds_for_testing();
    assert_eq!(
        rb,
        ResourceBoundsMapping {
            l1_gas: ResourceBounds { max_amount: 100, max_price_per_unit: 12 },
            l2_gas: ResourceBounds { max_amount: 58, max_price_per_unit: 31 },
        }
    );
}
