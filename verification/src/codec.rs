//! The wire codec: one canonical encoded form for every transaction, and a
//! decoder that reconstructs a value equal to the original. Field elements
//! travel as fixed-width lowercase hexadecimal text, 64-bit amounts as plain
//! numbers, sequences as ordered lists, and the kind and version of a
//! transaction as two reserved discriminator fields matched exactly.
//!
//! Decode policy: fields that the resolved variant does not name are
//! ignored, which keeps the format open to later additions; of several
//! fields under one name the first is read. Every failure is reported as a
//! typed error and never as a partial value.

use crate::felt::{address_bound, be_value, Felt};
use crate::rpc_transaction::{
    lemma_felts_wf_iff, ContractClass, DeclareV3Model, DeployAccountV3Model, InvokeV3Model,
    RPCDeclareTransaction, RPCDeclareTransactionV3, RPCDeployAccountTransaction,
    RPCDeployAccountTransactionV3, RPCInvokeTransaction, RPCInvokeTransactionV3, RPCTransaction,
    TransactionModel,
};
use crate::transaction::{
    felts_view, felts_wf, AccountDeploymentData, Calldata, ClassHash, CompiledClassHash,
    ContractAddress, ContractAddressSalt, DataAvailabilityMode, Nonce, PaymasterData,
    ResourceBounds, ResourceBoundsMapping, Tip, TransactionSignature,
};
use crate::wire::{
    entries_view, items_view, lemma_entries_view, lemma_items_view, lookup, obj_get, WireModel,
    WireValue,
};
use std::sync::Arc;
use vstd::prelude::*;

verus! {

/// Why a wire value failed to decode.
#[derive(Clone, Copy, Debug, PartialEq, Eq, Structural)]
pub enum DecodeError {
    /// The kind or version discriminator is present but not recognized.
    UnknownVariant,
    /// A field is present but has the wrong shape or type.
    MalformedField,
    /// A field the resolved variant requires is absent.
    MissingField,
}

/// The lowercase hexadecimal digit of a value below 16.
pub open spec fn hex_char(d: int) -> char {
    if d == 0 {
        '0'
    } else if d == 1 {
        '1'
    } else if d == 2 {
        '2'
    } else if d == 3 {
        '3'
    } else if d == 4 {
        '4'
    } else if d == 5 {
        '5'
    } else if d == 6 {
        '6'
    } else if d == 7 {
        '7'
    } else if d == 8 {
        '8'
    } else if d == 9 {
        '9'
    } else if d == 10 {
        'a'
    } else if d == 11 {
        'b'
    } else if d == 12 {
        'c'
    } else if d == 13 {
        'd'
    } else if d == 14 {
        'e'
    } else if d == 15 {
        'f'
    } else {
        '0'
    }
}

/// Whether a character is a lowercase hexadecimal digit, the only digits
/// the canonical form admits.
pub open spec fn is_hex_char(c: char) -> bool {
    ||| c == '0'
    ||| c == '1'
    ||| c == '2'
    ||| c == '3'
    ||| c == '4'
    ||| c == '5'
    ||| c == '6'
    ||| c == '7'
    ||| c == '8'
    ||| c == '9'
    ||| c == 'a'
    ||| c == 'b'
    ||| c == 'c'
    ||| c == 'd'
    ||| c == 'e'
    ||| c == 'f'
}

/// The value of a lowercase hexadecimal digit.
pub open spec fn hex_val(c: char) -> int {
    if c == '0' {
        0
    } else if c == '1' {
        1
    } else if c == '2' {
        2
    } else if c == '3' {
        3
    } else if c == '4' {
        4
    } else if c == '5' {
        5
    } else if c == '6' {
        6
    } else if c == '7' {
        7
    } else if c == '8' {
        8
    } else if c == '9' {
        9
    } else if c == 'a' {
        10
    } else if c == 'b' {
        11
    } else if c == 'c' {
        12
    } else if c == 'd' {
        13
    } else if c == 'e' {
        14
    } else if c == 'f' {
        15
    } else {
        0
    }
}

/// Encoding a digit and reading it back is the identity, and always yields
/// a hexadecimal character.
pub proof fn lemma_hex_digit(d: int)
    requires
        0 <= d < 16,
    ensures
        is_hex_char(hex_char(d)),
        hex_val(hex_char(d)) == d,
{
}

/// The canonical text of a felt: `0x` followed by the 64 lowercase
/// hexadecimal digits of its 32 bytes, fixed width, most significant first.
pub open spec fn felt_text(b: Seq<u8>) -> Seq<char> {
    seq!['0', 'x'] + Seq::new(
        64,
        |i: int|
            if i % 2 == 0 {
                hex_char(b[i / 2] as int / 16)
            } else {
                hex_char(b[i / 2] as int % 16)
            },
    )
}

/// Reads the canonical text of a felt back into its 32 bytes: exactly 66
/// characters, the `0x` prefix, then lowercase hexadecimal digits only.
pub open spec fn parse_felt_text(s: Seq<char>) -> Option<Seq<u8>> {
    if s.len() == 66 && s[0] == '0' && s[1] == 'x' && (forall|i: int|
        2 <= i < 66 ==> is_hex_char(#[trigger] s[i])) {
        Some(Seq::new(32, |i: int| (hex_val(s[2 * i + 2]) * 16 + hex_val(s[2 * i + 3])) as u8))
    } else {
        Option::None
    }
}

/// A felt's canonical text parses back to exactly its bytes.
pub proof fn lemma_felt_text_roundtrip(b: Seq<u8>)
    requires
        b.len() == 32,
    ensures
        parse_felt_text(felt_text(b)) == Some(b),
{
    let s = felt_text(b);
    assert(s.len() == 66);
    assert(s[0] == '0');
    assert(s[1] == 'x');
    assert forall|i: int| 2 <= i < 66 implies is_hex_char(#[trigger] s[i]) by {
        let j = i - 2;
        assert(s[i] == if j % 2 == 0 {
            hex_char(b[j / 2] as int / 16)
        } else {
            hex_char(b[j / 2] as int % 16)
        });
        if j % 2 == 0 {
            lemma_hex_digit(b[j / 2] as int / 16);
        } else {
            lemma_hex_digit(b[j / 2] as int % 16);
        }
    }
    let parsed = parse_felt_text(s)->Some_0;
    assert forall|i: int| 0 <= i < 32 implies parsed[i] == b[i] by {
        assert(s[2 * i + 2] == hex_char(b[i] as int / 16));
        assert(s[2 * i + 3] == hex_char(b[i] as int % 16));
        lemma_hex_digit(b[i] as int / 16);
        lemma_hex_digit(b[i] as int % 16);
        assert(parsed[i] == ((b[i] as int / 16) * 16 + (b[i] as int % 16)) as u8);
    }
    assert(parsed =~= b);
}

/// The wire form of one felt: its canonical text.
pub open spec fn enc_felt(b: Seq<u8>) -> WireModel {
    WireModel::Str(felt_text(b))
}

/// Reads one felt from a wire value: anything but canonical felt text is
/// malformed.
pub open spec fn dec_felt(v: WireModel) -> Result<Seq<u8>, DecodeError> {
    match v {
        WireModel::Str(s) => match parse_felt_text(s) {
            Some(b) => Ok(b),
            Option::None => Err(DecodeError::MalformedField),
        },
        _ => Err(DecodeError::MalformedField),
    }
}

pub proof fn lemma_felt_roundtrip(b: Seq<u8>)
    requires
        b.len() == 32,
    ensures
        dec_felt(enc_felt(b)) == Ok::<Seq<u8>, DecodeError>(b),
{
    lemma_felt_text_roundtrip(b);
}

/// The wire form of a felt sequence: the ordered list of the elements'
/// texts. An empty sequence is an explicit empty list.
pub open spec fn enc_felts(s: Seq<Seq<u8>>) -> WireModel {
    WireModel::Arr(Seq::new(s.len(), |i: int| enc_felt(s[i])))
}

/// Reads a felt sequence from a wire value, keeping element order.
pub open spec fn dec_felts(v: WireModel) -> Result<Seq<Seq<u8>>, DecodeError> {
    match v {
        WireModel::Arr(items) => {
            if forall|i: int| 0 <= i < items.len() ==> dec_felt(#[trigger] items[i]) is Ok {
                Ok(Seq::new(items.len(), |i: int| dec_felt(items[i])->Ok_0))
            } else {
                Err(DecodeError::MalformedField)
            }
        },
        _ => Err(DecodeError::MalformedField),
    }
}

pub proof fn lemma_felts_roundtrip(s: Seq<Seq<u8>>)
    requires
        forall|i: int| 0 <= i < s.len() ==> (#[trigger] s[i]).len() == 32,
    ensures
        dec_felts(enc_felts(s)) == Ok::<Seq<Seq<u8>>, DecodeError>(s),
{
    let items = Seq::new(s.len(), |i: int| enc_felt(s[i]));
    assert forall|i: int| 0 <= i < items.len() implies dec_felt(#[trigger] items[i]) is Ok by {
        lemma_felt_roundtrip(s[i]);
    }
    let out = dec_felts(enc_felts(s))->Ok_0;
    assert forall|i: int| 0 <= i < s.len() implies out[i] == s[i] by {
        lemma_felt_roundtrip(s[i]);
    }
    assert(out =~= s);
}

/// The wire form of a data-availability mode: one of the two fixed tokens.
pub open spec fn enc_da(m: DataAvailabilityMode) -> WireModel {
    match m {
        DataAvailabilityMode::L1 => WireModel::Str("L1"@),
        DataAvailabilityMode::L2 => WireModel::Str("L2"@),
    }
}

/// Reads a data-availability mode: exactly the tokens `L1` and `L2` are
/// accepted, nothing else.
pub open spec fn dec_da(v: WireModel) -> Result<DataAvailabilityMode, DecodeError> {
    match v {
        WireModel::Str(s) => {
            if s == "L1"@ {
                Ok(DataAvailabilityMode::L1)
            } else if s == "L2"@ {
                Ok(DataAvailabilityMode::L2)
            } else {
                Err(DecodeError::MalformedField)
            }
        },
        _ => Err(DecodeError::MalformedField),
    }
}

pub proof fn lemma_da_roundtrip(m: DataAvailabilityMode)
    ensures
        dec_da(enc_da(m)) == Ok::<DataAvailabilityMode, DecodeError>(m),
{
    reveal_strlit("L1");
    reveal_strlit("L2");
    assert("L1"@.len() == 2);
    assert("L1"@[0] == 'L' && "L1"@[1] == '1');
    assert("L2"@[1] == '2');
}

/// Only the two fixed tokens decode to a data-availability mode; any other
/// text is rejected.
pub proof fn lemma_da_exactness(s: Seq<char>)
    ensures
        dec_da(WireModel::Str(s)) is Ok <==> (s == "L1"@ || s == "L2"@),
{
}

/// Reads a 64-bit amount: a plain number, nothing else.
pub open spec fn dec_u64(v: WireModel) -> Result<u64, DecodeError> {
    match v {
        WireModel::Num(n) => Ok(n),
        _ => Err(DecodeError::MalformedField),
    }
}

/// The wire form of one resource bound: a record of its two amounts.
pub open spec fn enc_bounds(b: ResourceBounds) -> WireModel {
    WireModel::Obj(
        seq![
            ("max_amount"@, WireModel::Num(b.max_amount)),
            ("max_price_per_unit"@, WireModel::Num(b.max_price_per_unit)),
        ],
    )
}

/// The field a key names, or `MissingField` when the key is absent.
pub open spec fn get_field(
    fields: Seq<(Seq<char>, WireModel)>,
    key: Seq<char>,
) -> Result<WireModel, DecodeError> {
    match lookup(fields, key) {
        Some(v) => Ok(v),
        Option::None => Err(DecodeError::MissingField),
    }
}

/// Reads one resource bound from its record.
pub open spec fn dec_bounds(v: WireModel) -> Result<ResourceBounds, DecodeError> {
    match v {
        WireModel::Obj(fields) => match get_field(fields, "max_amount"@) {
            Err(e) => Err(e),
            Ok(a) => match dec_u64(a) {
                Err(e) => Err(e),
                Ok(max_amount) => match get_field(fields, "max_price_per_unit"@) {
                    Err(e) => Err(e),
                    Ok(p) => match dec_u64(p) {
                        Err(e) => Err(e),
                        Ok(max_price_per_unit) => Ok(
                            ResourceBounds { max_amount, max_price_per_unit },
                        ),
                    },
                },
            },
        },
        _ => Err(DecodeError::MalformedField),
    }
}

/// The wire form of the resource bounds: a record with exactly the two
/// named gas entries, both always present.
pub open spec fn enc_rb(rb: ResourceBoundsMapping) -> WireModel {
    WireModel::Obj(seq![("l1_gas"@, enc_bounds(rb.l1_gas)), ("l2_gas"@, enc_bounds(rb.l2_gas))])
}

/// Reads the resource bounds; a missing gas entry is `MissingField`, never
/// a default.
pub open spec fn dec_rb(v: WireModel) -> Result<ResourceBoundsMapping, DecodeError> {
    match v {
        WireModel::Obj(fields) => match get_field(fields, "l1_gas"@) {
            Err(e) => Err(e),
            Ok(b1) => match dec_bounds(b1) {
                Err(e) => Err(e),
                Ok(l1_gas) => match get_field(fields, "l2_gas"@) {
                    Err(e) => Err(e),
                    Ok(b2) => match dec_bounds(b2) {
                        Err(e) => Err(e),
                        Ok(l2_gas) => Ok(ResourceBoundsMapping { l1_gas, l2_gas }),
                    },
                },
            },
        },
        _ => Err(DecodeError::MalformedField),
    }
}

pub proof fn lemma_bounds_roundtrip(b: ResourceBounds)
    ensures
        dec_bounds(enc_bounds(b)) == Ok::<ResourceBounds, DecodeError>(b),
{
    reveal_with_fuel(lookup, 4);
    reveal_strlit("max_amount");
    reveal_strlit("max_price_per_unit");
    assert("max_amount"@.len() == 10);
    assert("max_price_per_unit"@.len() == 18);
}

pub proof fn lemma_rb_roundtrip(rb: ResourceBoundsMapping)
    ensures
        dec_rb(enc_rb(rb)) == Ok::<ResourceBoundsMapping, DecodeError>(rb),
{
    reveal_with_fuel(lookup, 4);
    reveal_strlit("l1_gas");
    reveal_strlit("l2_gas");
    assert("l1_gas"@.len() == 6);
    assert("l1_gas"@[1] == '1');
    assert("l2_gas"@[1] == '2');
    lemma_bounds_roundtrip(rb.l1_gas);
    lemma_bounds_roundtrip(rb.l2_gas);
}

/// Reads the field a key names as one felt.
pub open spec fn dec_field_felt(
    fields: Seq<(Seq<char>, WireModel)>,
    key: Seq<char>,
) -> Result<Seq<u8>, DecodeError> {
    match get_field(fields, key) {
        Err(e) => Err(e),
        Ok(v) => dec_felt(v),
    }
}

/// Reads the field a key names as an address: a felt whose value lies in
/// the address key-space; anything outside it is malformed.
pub open spec fn dec_field_addr(
    fields: Seq<(Seq<char>, WireModel)>,
    key: Seq<char>,
) -> Result<Seq<u8>, DecodeError> {
    match dec_field_felt(fields, key) {
        Err(e) => Err(e),
        Ok(b) => {
            if be_value(b) < address_bound() {
                Ok(b)
            } else {
                Err(DecodeError::MalformedField)
            }
        },
    }
}

/// Reads the field a key names as a felt sequence.
pub open spec fn dec_field_felts(
    fields: Seq<(Seq<char>, WireModel)>,
    key: Seq<char>,
) -> Result<Seq<Seq<u8>>, DecodeError> {
    match get_field(fields, key) {
        Err(e) => Err(e),
        Ok(v) => dec_felts(v),
    }
}

/// Reads the field a key names as a 64-bit amount.
pub open spec fn dec_field_u64(
    fields: Seq<(Seq<char>, WireModel)>,
    key: Seq<char>,
) -> Result<u64, DecodeError> {
    match get_field(fields, key) {
        Err(e) => Err(e),
        Ok(v) => dec_u64(v),
    }
}

/// Reads the field a key names as a data-availability mode.
pub open spec fn dec_field_da(
    fields: Seq<(Seq<char>, WireModel)>,
    key: Seq<char>,
) -> Result<DataAvailabilityMode, DecodeError> {
    match get_field(fields, key) {
        Err(e) => Err(e),
        Ok(v) => dec_da(v),
    }
}

/// Reads the field a key names as the resource bounds.
pub open spec fn dec_field_rb(
    fields: Seq<(Seq<char>, WireModel)>,
    key: Seq<char>,
) -> Result<ResourceBoundsMapping, DecodeError> {
    match get_field(fields, key) {
        Err(e) => Err(e),
        Ok(v) => dec_rb(v),
    }
}

/// The wire form of a whole transaction: one object whose reserved `type`
/// and `version` fields name the exact variant, followed by that variant's
/// fields and no others.
pub open spec fn spec_encode(t: TransactionModel) -> WireModel {
    match t {
        TransactionModel::DeclareV3(d) => WireModel::Obj(
            seq![
                ("type"@, WireModel::Str("DECLARE"@)),
                ("version"@, WireModel::Str("0x3"@)),
                ("contract_class"@, enc_felts(d.contract_class)),
                ("resource_bounds"@, enc_rb(d.resource_bounds)),
                ("tip"@, WireModel::Num(d.tip)),
                ("signature"@, enc_felts(d.signature)),
                ("nonce"@, enc_felt(d.nonce)),
                ("compiled_class_hash"@, enc_felt(d.compiled_class_hash)),
                ("sender_address"@, enc_felt(d.sender_address)),
                ("nonce_data_availability_mode"@, enc_da(d.nonce_data_availability_mode)),
                ("fee_data_availability_mode"@, enc_da(d.fee_data_availability_mode)),
                ("paymaster_data"@, enc_felts(d.paymaster_data)),
                ("account_deployment_data"@, enc_felts(d.account_deployment_data)),
            ],
        ),
        TransactionModel::DeployAccountV3(d) => WireModel::Obj(
            seq![
                ("type"@, WireModel::Str("DEPLOY_ACCOUNT"@)),
                ("version"@, WireModel::Str("0x3"@)),
                ("resource_bounds"@, enc_rb(d.resource_bounds)),
                ("tip"@, WireModel::Num(d.tip)),
                ("contract_address_salt"@, enc_felt(d.contract_address_salt)),
                ("class_hash"@, enc_felt(d.class_hash)),
                ("constructor_calldata"@, enc_felts(d.constructor_calldata)),
                ("nonce"@, enc_felt(d.nonce)),
                ("signature"@, enc_felts(d.signature)),
                ("nonce_data_availability_mode"@, enc_da(d.nonce_data_availability_mode)),
                ("fee_data_availability_mode"@, enc_da(d.fee_data_availability_mode)),
                ("paymaster_data"@, enc_felts(d.paymaster_data)),
            ],
        ),
        TransactionModel::InvokeV3(d) => WireModel::Obj(
            seq![
                ("type"@, WireModel::Str("INVOKE"@)),
                ("version"@, WireModel::Str("0x3"@)),
                ("resource_bounds"@, enc_rb(d.resource_bounds)),
                ("tip"@, WireModel::Num(d.tip)),
                ("calldata"@, enc_felts(d.calldata)),
                ("sender_address"@, enc_felt(d.sender_address)),
                ("nonce"@, enc_felt(d.nonce)),
                ("signature"@, enc_felts(d.signature)),
                ("nonce_data_availability_mode"@, enc_da(d.nonce_data_availability_mode)),
                ("fee_data_availability_mode"@, enc_da(d.fee_data_availability_mode)),
                ("paymaster_data"@, enc_felts(d.paymaster_data)),
                ("account_deployment_data"@, enc_felts(d.account_deployment_data)),
            ],
        ),
    }
}

/// Reads the reserved `version` field: only version `0x3` is known; any
/// other version text is an unknown variant.
pub open spec fn check_version(fields: Seq<(Seq<char>, WireModel)>) -> Result<(), DecodeError> {
    match lookup(fields, "version"@) {
        Option::None => Err(DecodeError::MissingField),
        Some(WireModel::Str(v)) => {
            if v == "0x3"@ {
                Ok(())
            } else {
                Err(DecodeError::UnknownVariant)
            }
        },
        Some(_) => Err(DecodeError::MalformedField),
    }
}

/// Reads the fields of a declare V3 record.
pub open spec fn dec_declare_v3(
    fields: Seq<(Seq<char>, WireModel)>,
) -> Result<TransactionModel, DecodeError> {
    match dec_field_felts(fields, "contract_class"@) {
        Err(e) => Err(e),
        Ok(contract_class) => match dec_field_rb(fields, "resource_bounds"@) {
            Err(e) => Err(e),
            Ok(resource_bounds) => match dec_field_u64(fields, "tip"@) {
                Err(e) => Err(e),
                Ok(tip) => match dec_field_felts(fields, "signature"@) {
                    Err(e) => Err(e),
                    Ok(signature) => match dec_field_felt(fields, "nonce"@) {
                        Err(e) => Err(e),
                        Ok(nonce) => match dec_field_felt(fields, "compiled_class_hash"@) {
                            Err(e) => Err(e),
                            Ok(compiled_class_hash) => match dec_field_addr(
                                fields,
                                "sender_address"@,
                            ) {
                                Err(e) => Err(e),
                                Ok(sender_address) => match dec_field_da(
                                    fields,
                                    "nonce_data_availability_mode"@,
                                ) {
                                    Err(e) => Err(e),
                                    Ok(nonce_data_availability_mode) => match dec_field_da(
                                        fields,
                                        "fee_data_availability_mode"@,
                                    ) {
                                        Err(e) => Err(e),
                                        Ok(fee_data_availability_mode) => match dec_field_felts(
                                            fields,
                                            "paymaster_data"@,
                                        ) {
                                            Err(e) => Err(e),
                                            Ok(paymaster_data) => match dec_field_felts(
                                                fields,
                                                "account_deployment_data"@,
                                            ) {
                                                Err(e) => Err(e),
                                                Ok(account_deployment_data) => Ok(
                                                    TransactionModel::DeclareV3(
                                                        DeclareV3Model {
                                                            contract_class,
                                                            resource_bounds,
                                                            tip,
                                                            signature,
                                                            nonce,
                                                            compiled_class_hash,
                                                            sender_address,
                                                            nonce_data_availability_mode,
                                                            fee_data_availability_mode,
                                                            paymaster_data,
                                                            account_deployment_data,
                                                        },
                                                    ),
                                                ),
                                            },
                                        },
                                    },
                                },
                            },
                        },
                    },
                },
            },
        },
    }
}

/// Reads the fields of a deploy-account V3 record.
pub open spec fn dec_deploy_account_v3(
    fields: Seq<(Seq<char>, WireModel)>,
) -> Result<TransactionModel, DecodeError> {
    match dec_field_rb(fields, "resource_bounds"@) {
        Err(e) => Err(e),
        Ok(resource_bounds) => match dec_field_u64(fields, "tip"@) {
            Err(e) => Err(e),
            Ok(tip) => match dec_field_felt(fields, "contract_address_salt"@) {
                Err(e) => Err(e),
                Ok(contract_address_salt) => match dec_field_felt(fields, "class_hash"@) {
                    Err(e) => Err(e),
                    Ok(class_hash) => match dec_field_felts(fields, "constructor_calldata"@) {
                        Err(e) => Err(e),
                        Ok(constructor_calldata) => match dec_field_felt(fields, "nonce"@) {
                            Err(e) => Err(e),
                            Ok(nonce) => match dec_field_felts(fields, "signature"@) {
                                Err(e) => Err(e),
                                Ok(signature) => match dec_field_da(
                                    fields,
                                    "nonce_data_availability_mode"@,
                                ) {
                                    Err(e) => Err(e),
                                    Ok(nonce_data_availability_mode) => match dec_field_da(
                                        fields,
                                        "fee_data_availability_mode"@,
                                    ) {
                                        Err(e) => Err(e),
                                        Ok(fee_data_availability_mode) => match dec_field_felts(
                                            fields,
                                            "paymaster_data"@,
                                        ) {
                                            Err(e) => Err(e),
                                            Ok(paymaster_data) => Ok(
                                                TransactionModel::DeployAccountV3(
                                                    DeployAccountV3Model {
                                                        resource_bounds,
                                                        tip,
                                                        contract_address_salt,
                                                        class_hash,
                                                        constructor_calldata,
                                                        nonce,
                                                        signature,
                                                        nonce_data_availability_mode,
                                                        fee_data_availability_mode,
                                                        paymaster_data,
                                                    },
                                                ),
                                            ),
                                        },
                                    },
                                },
                            },
                        },
                    },
                },
            },
        },
    }
}

/// Reads the fields of an invoke V3 record.
pub open spec fn dec_invoke_v3(
    fields: Seq<(Seq<char>, WireModel)>,
) -> Result<TransactionModel, DecodeError> {
    match dec_field_rb(fields, "resource_bounds"@) {
        Err(e) => Err(e),
        Ok(resource_bounds) => match dec_field_u64(fields, "tip"@) {
            Err(e) => Err(e),
            Ok(tip) => match dec_field_felts(fields, "calldata"@) {
                Err(e) => Err(e),
                Ok(calldata) => match dec_field_addr(fields, "sender_address"@) {
                    Err(e) => Err(e),
                    Ok(sender_address) => match dec_field_felt(fields, "nonce"@) {
                        Err(e) => Err(e),
                        Ok(nonce) => match dec_field_felts(fields, "signature"@) {
                            Err(e) => Err(e),
                            Ok(signature) => match dec_field_da(
                                fields,
                                "nonce_data_availability_mode"@,
                            ) {
                                Err(e) => Err(e),
                                Ok(nonce_data_availability_mode) => match dec_field_da(
                                    fields,
                                    "fee_data_availability_mode"@,
                                ) {
                                    Err(e) => Err(e),
                                    Ok(fee_data_availability_mode) => match dec_field_felts(
                                        fields,
                                        "paymaster_data"@,
                                    ) {
                                        Err(e) => Err(e),
                                        Ok(paymaster_data) => match dec_field_felts(
                                            fields,
                                            "account_deployment_data"@,
                                        ) {
                                            Err(e) => Err(e),
                                            Ok(account_deployment_data) => Ok(
                                                TransactionModel::InvokeV3(
                                                    InvokeV3Model {
                                                        resource_bounds,
                                                        tip,
                                                        calldata,
                                                        sender_address,
                                                        nonce,
                                                        signature,
                                                        nonce_data_availability_mode,
                                                        fee_data_availability_mode,
                                                        paymaster_data,
                                                        account_deployment_data,
                                                    },
                                                ),
                                            ),
                                        },
                                    },
                                },
                            },
                        },
                    },
                },
            },
        },
    }
}

/// Reads a whole transaction from a wire value: the two discriminators
/// resolve the exact variant, matched exactly, and only then is that
/// variant's field set read. An unrecognized kind or version never falls
/// back to a default variant.
pub open spec fn spec_decode(w: WireModel) -> Result<TransactionModel, DecodeError> {
    match w {
        WireModel::Obj(fields) => match lookup(fields, "type"@) {
            Option::None => Err(DecodeError::MissingField),
            Some(WireModel::Str(t)) => {
                if t == "DECLARE"@ {
                    match check_version(fields) {
                        Err(e) => Err(e),
                        Ok(u) => dec_declare_v3(fields),
                    }
                } else if t == "DEPLOY_ACCOUNT"@ {
                    match check_version(fields) {
                        Err(e) => Err(e),
                        Ok(u) => dec_deploy_account_v3(fields),
                    }
                } else if t == "INVOKE"@ {
                    match check_version(fields) {
                        Err(e) => Err(e),
                        Ok(u) => dec_invoke_v3(fields),
                    }
                } else {
                    Err(DecodeError::UnknownVariant)
                }
            },
            Some(_) => Err(DecodeError::MalformedField),
        },
        _ => Err(DecodeError::MalformedField),
    }
}

/// The lengths of the wire format's field names and tokens, and the first
/// character of the three names sharing a length: enough to tell any two of
/// them apart.
pub proof fn lemma_wire_key_facts()
    ensures
        "type"@.len() == 4,
        "version"@.len() == 7,
        "contract_class"@.len() == 14,
        "resource_bounds"@.len() == 15,
        "tip"@.len() == 3,
        "signature"@.len() == 9,
        "nonce"@.len() == 5,
        "compiled_class_hash"@.len() == 19,
        "sender_address"@.len() == 14,
        "nonce_data_availability_mode"@.len() == 28,
        "fee_data_availability_mode"@.len() == 26,
        "paymaster_data"@.len() == 14,
        "account_deployment_data"@.len() == 23,
        "contract_address_salt"@.len() == 21,
        "class_hash"@.len() == 10,
        "constructor_calldata"@.len() == 20,
        "calldata"@.len() == 8,
        "DECLARE"@.len() == 7,
        "DEPLOY_ACCOUNT"@.len() == 14,
        "INVOKE"@.len() == 6,
        "0x3"@.len() == 3,
        "contract_class"@[0] == 'c',
        "sender_address"@[0] == 's',
        "paymaster_data"@[0] == 'p',
{
    reveal_strlit("type");
    reveal_strlit("version");
    reveal_strlit("contract_class");
    reveal_strlit("resource_bounds");
    reveal_strlit("tip");
    reveal_strlit("signature");
    reveal_strlit("nonce");
    reveal_strlit("compiled_class_hash");
    reveal_strlit("sender_address");
    reveal_strlit("nonce_data_availability_mode");
    reveal_strlit("fee_data_availability_mode");
    reveal_strlit("paymaster_data");
    reveal_strlit("account_deployment_data");
    reveal_strlit("contract_address_salt");
    reveal_strlit("class_hash");
    reveal_strlit("constructor_calldata");
    reveal_strlit("calldata");
    reveal_strlit("DECLARE");
    reveal_strlit("DEPLOY_ACCOUNT");
    reveal_strlit("INVOKE");
    reveal_strlit("0x3");
}

/// A declare V3 value decodes back from its own encoding unchanged.
#[verifier::rlimit(100)]
pub proof fn lemma_roundtrip_declare(d: DeclareV3Model)
    requires
        d.wf(),
    ensures
        spec_decode(spec_encode(TransactionModel::DeclareV3(d))) == Ok::<
            TransactionModel,
            DecodeError,
        >(TransactionModel::DeclareV3(d)),
{
    reveal_with_fuel(lookup, 15);
    lemma_wire_key_facts();
    let w = spec_encode(TransactionModel::DeclareV3(d));
    let fields = w->Obj_0;
    assert(lookup(fields, "type"@) == Some(WireModel::Str("DECLARE"@)));
    assert(lookup(fields, "version"@) == Some(WireModel::Str("0x3"@)));
    assert(lookup(fields, "contract_class"@) == Some(enc_felts(d.contract_class)));
    assert(lookup(fields, "resource_bounds"@) == Some(enc_rb(d.resource_bounds)));
    assert(lookup(fields, "tip"@) == Some(WireModel::Num(d.tip)));
    assert(lookup(fields, "signature"@) == Some(enc_felts(d.signature)));
    assert(lookup(fields, "nonce"@) == Some(enc_felt(d.nonce)));
    assert(lookup(fields, "compiled_class_hash"@) == Some(enc_felt(d.compiled_class_hash)));
    assert(lookup(fields, "sender_address"@) == Some(enc_felt(d.sender_address)));
    assert(lookup(fields, "nonce_data_availability_mode"@) == Some(
        enc_da(d.nonce_data_availability_mode),
    ));
    assert(lookup(fields, "fee_data_availability_mode"@) == Some(
        enc_da(d.fee_data_availability_mode),
    ));
    assert(lookup(fields, "paymaster_data"@) == Some(enc_felts(d.paymaster_data)));
    assert(lookup(fields, "account_deployment_data"@) == Some(
        enc_felts(d.account_deployment_data),
    ));
    lemma_felts_roundtrip(d.contract_class);
    lemma_rb_roundtrip(d.resource_bounds);
    lemma_felts_roundtrip(d.signature);
    lemma_felt_roundtrip(d.nonce);
    lemma_felt_roundtrip(d.compiled_class_hash);
    lemma_felt_roundtrip(d.sender_address);
    lemma_da_roundtrip(d.nonce_data_availability_mode);
    lemma_da_roundtrip(d.fee_data_availability_mode);
    lemma_felts_roundtrip(d.paymaster_data);
    lemma_felts_roundtrip(d.account_deployment_data);
}

/// A deploy-account V3 value decodes back from its own encoding unchanged.
#[verifier::rlimit(100)]
pub proof fn lemma_roundtrip_deploy_account(d: DeployAccountV3Model)
    requires
        d.wf(),
    ensures
        spec_decode(spec_encode(TransactionModel::DeployAccountV3(d))) == Ok::<
            TransactionModel,
            DecodeError,
        >(TransactionModel::DeployAccountV3(d)),
{
    reveal_with_fuel(lookup, 15);
    lemma_wire_key_facts();
    let w = spec_encode(TransactionModel::DeployAccountV3(d));
    let fields = w->Obj_0;
    assert(lookup(fields, "type"@) == Some(WireModel::Str("DEPLOY_ACCOUNT"@)));
    assert(lookup(fields, "version"@) == Some(WireModel::Str("0x3"@)));
    assert(lookup(fields, "resource_bounds"@) == Some(enc_rb(d.resource_bounds)));
    assert(lookup(fields, "tip"@) == Some(WireModel::Num(d.tip)));
    assert(lookup(fields, "contract_address_salt"@) == Some(enc_felt(d.contract_address_salt)));
    assert(lookup(fields, "class_hash"@) == Some(enc_felt(d.class_hash)));
    assert(lookup(fields, "constructor_calldata"@) == Some(enc_felts(d.constructor_calldata)));
    assert(lookup(fields, "nonce"@) == Some(enc_felt(d.nonce)));
    assert(lookup(fields, "signature"@) == Some(enc_felts(d.signature)));
    assert(lookup(fields, "nonce_data_availability_mode"@) == Some(
        enc_da(d.nonce_data_availability_mode),
    ));
    assert(lookup(fields, "fee_data_availability_mode"@) == Some(
        enc_da(d.fee_data_availability_mode),
    ));
    assert(lookup(fields, "paymaster_data"@) == Some(enc_felts(d.paymaster_data)));
    lemma_rb_roundtrip(d.resource_bounds);
    lemma_felt_roundtrip(d.contract_address_salt);
    lemma_felt_roundtrip(d.class_hash);
    lemma_felts_roundtrip(d.constructor_calldata);
    lemma_felt_roundtrip(d.nonce);
    lemma_felts_roundtrip(d.signature);
    lemma_da_roundtrip(d.nonce_data_availability_mode);
    lemma_da_roundtrip(d.fee_data_availability_mode);
    lemma_felts_roundtrip(d.paymaster_data);
}

/// Where each field of an encoded invoke V3 record is found.
#[verifier::rlimit(100)]
proof fn lemma_invoke_lookups(d: InvokeV3Model)
    ensures
        ({
            let fields = spec_encode(TransactionModel::InvokeV3(d))->Obj_0;
            &&& lookup(fields, "type"@) == Some(WireModel::Str("INVOKE"@))
            &&& lookup(fields, "version"@) == Some(WireModel::Str("0x3"@))
            &&& lookup(fields, "resource_bounds"@) == Some(enc_rb(d.resource_bounds))
            &&& lookup(fields, "tip"@) == Some(WireModel::Num(d.tip))
            &&& lookup(fields, "calldata"@) == Some(enc_felts(d.calldata))
            &&& lookup(fields, "sender_address"@) == Some(enc_felt(d.sender_address))
            &&& lookup(fields, "nonce"@) == Some(enc_felt(d.nonce))
            &&& lookup(fields, "signature"@) == Some(enc_felts(d.signature))
            &&& lookup(fields, "nonce_data_availability_mode"@) == Some(
                enc_da(d.nonce_data_availability_mode),
            )
            &&& lookup(fields, "fee_data_availability_mode"@) == Some(
                enc_da(d.fee_data_availability_mode),
            )
            &&& lookup(fields, "paymaster_data"@) == Some(enc_felts(d.paymaster_data))
            &&& lookup(fields, "account_deployment_data"@) == Some(
                enc_felts(d.account_deployment_data),
            )
        }),
{
    reveal_with_fuel(lookup, 15);
    lemma_wire_key_facts();
    let fields = spec_encode(TransactionModel::InvokeV3(d))->Obj_0;
    assert(lookup(fields, "type"@) == Some(WireModel::Str("INVOKE"@)));
    assert(lookup(fields, "version"@) == Some(WireModel::Str("0x3"@)));
    assert(lookup(fields, "resource_bounds"@) == Some(enc_rb(d.resource_bounds)));
    assert(lookup(fields, "tip"@) == Some(WireModel::Num(d.tip)));
    assert(lookup(fields, "calldata"@) == Some(enc_felts(d.calldata)));
    assert(lookup(fields, "sender_address"@) == Some(enc_felt(d.sender_address)));
    assert(lookup(fields, "nonce"@) == Some(enc_felt(d.nonce)));
    assert(lookup(fields, "signature"@) == Some(enc_felts(d.signature)));
    assert(lookup(fields, "nonce_data_availability_mode"@) == Some(
        enc_da(d.nonce_data_availability_mode),
    ));
    assert(lookup(fields, "fee_data_availability_mode"@) == Some(
        enc_da(d.fee_data_availability_mode),
    ));
    assert(lookup(fields, "paymaster_data"@) == Some(enc_felts(d.paymaster_data)));
    assert(lookup(fields, "account_deployment_data"@) == Some(
        enc_felts(d.account_deployment_data),
    ));
}

/// An invoke V3 value decodes back from its own encoding unchanged.
#[verifier::rlimit(100)]
pub proof fn lemma_roundtrip_invoke(d: InvokeV3Model)
    requires
        d.wf(),
    ensures
        spec_decode(spec_encode(TransactionModel::InvokeV3(d))) == Ok::<
            TransactionModel,
            DecodeError,
        >(TransactionModel::InvokeV3(d)),
{
    lemma_wire_key_facts();
    lemma_invoke_lookups(d);
    lemma_rb_roundtrip(d.resource_bounds);
    lemma_felts_roundtrip(d.calldata);
    lemma_felt_roundtrip(d.sender_address);
    lemma_felt_roundtrip(d.nonce);
    lemma_felts_roundtrip(d.signature);
    lemma_da_roundtrip(d.nonce_data_availability_mode);
    lemma_da_roundtrip(d.fee_data_availability_mode);
    lemma_felts_roundtrip(d.paymaster_data);
    lemma_felts_roundtrip(d.account_deployment_data);
}

/// Round-trip identity: every constructible transaction decodes back from
/// its own encoding to a value equal to the original, variant tag, nested
/// fields, sequence order and numeric magnitude all included.
pub proof fn lemma_roundtrip(t: TransactionModel)
    requires
        t.wf(),
    ensures
        spec_decode(spec_encode(t)) == Ok::<TransactionModel, DecodeError>(t),
{
    match t {
        TransactionModel::DeclareV3(d) => lemma_roundtrip_declare(d),
        TransactionModel::DeployAccountV3(d) => lemma_roundtrip_deploy_account(d),
        TransactionModel::InvokeV3(d) => lemma_roundtrip_invoke(d),
    }
}

/// Discriminator fidelity: the encoding of a transaction decodes as the
/// same kind, never as another kind or another version of it.
pub proof fn lemma_discriminator_fidelity(t: TransactionModel)
    requires
        t.wf(),
    ensures
        spec_decode(spec_encode(t)) is Ok,
        spec_decode(spec_encode(t))->Ok_0 is DeclareV3 <==> t is DeclareV3,
        spec_decode(spec_encode(t))->Ok_0 is DeployAccountV3 <==> t is DeployAccountV3,
        spec_decode(spec_encode(t))->Ok_0 is InvokeV3 <==> t is InvokeV3,
{
    lemma_roundtrip(t);
}

/// A felt read from the wire always carries its full 32 bytes.
pub proof fn lemma_dec_felt_wf(v: WireModel)
    ensures
        dec_felt(v) matches Ok(b) ==> b.len() == 32,
{
}

/// A felt sequence read from the wire is made of full felts.
pub proof fn lemma_dec_felts_wf(v: WireModel)
    ensures
        dec_felts(v) matches Ok(s) ==> crate::rpc_transaction::all_felts(s),
{
    if dec_felts(v) is Ok {
        let items = v->Arr_0;
        let out = dec_felts(v)->Ok_0;
        assert forall|i: int| 0 <= i < out.len() implies (#[trigger] out[i]).len() == 32 by {
            lemma_dec_felt_wf(items[i]);
        }
    }
}

/// Whatever decodes is valid: a decoder success is always a well-formed
/// transaction, so every decoded value has a canonical encoding of its own.
#[verifier::rlimit(100)]
pub proof fn lemma_decode_wf(w: WireModel)
    ensures
        spec_decode(w) matches Ok(t) ==> t.wf(),
{
    if spec_decode(w) is Ok {
        let fields = w->Obj_0;
        let t = spec_decode(w)->Ok_0;
        match t {
            TransactionModel::DeclareV3(d) => {
                lemma_dec_felts_wf(get_field(fields, "contract_class"@)->Ok_0);
                lemma_dec_felts_wf(get_field(fields, "signature"@)->Ok_0);
                lemma_dec_felt_wf(get_field(fields, "nonce"@)->Ok_0);
                lemma_dec_felt_wf(get_field(fields, "compiled_class_hash"@)->Ok_0);
                lemma_dec_felt_wf(get_field(fields, "sender_address"@)->Ok_0);
                lemma_dec_felts_wf(get_field(fields, "paymaster_data"@)->Ok_0);
                lemma_dec_felts_wf(get_field(fields, "account_deployment_data"@)->Ok_0);
            },
            TransactionModel::DeployAccountV3(d) => {
                lemma_dec_felt_wf(get_field(fields, "contract_address_salt"@)->Ok_0);
                lemma_dec_felt_wf(get_field(fields, "class_hash"@)->Ok_0);
                lemma_dec_felts_wf(get_field(fields, "constructor_calldata"@)->Ok_0);
                lemma_dec_felt_wf(get_field(fields, "nonce"@)->Ok_0);
                lemma_dec_felts_wf(get_field(fields, "signature"@)->Ok_0);
                lemma_dec_felts_wf(get_field(fields, "paymaster_data"@)->Ok_0);
            },
            TransactionModel::InvokeV3(d) => {
                lemma_dec_felts_wf(get_field(fields, "calldata"@)->Ok_0);
                lemma_dec_felt_wf(get_field(fields, "sender_address"@)->Ok_0);
                lemma_dec_felt_wf(get_field(fields, "nonce"@)->Ok_0);
                lemma_dec_felts_wf(get_field(fields, "signature"@)->Ok_0);
                lemma_dec_felts_wf(get_field(fields, "paymaster_data"@)->Ok_0);
                lemma_dec_felts_wf(get_field(fields, "account_deployment_data"@)->Ok_0);
            },
        }
    }
}

/// The hexadecimal digit of a value below 16, as text.
fn hex_char_str(d: u8) -> (r: &'static str)
    requires
        d < 16,
    ensures
        r@ == seq![hex_char(d as int)],
{
    if d == 0 {
        proof {
            reveal_strlit("0");
            assert("0"@ =~= seq![hex_char(0)]);
        }
        "0"
    } else if d == 1 {
        proof {
            reveal_strlit("1");
            assert("1"@ =~= seq![hex_char(1)]);
        }
        "1"
    } else if d == 2 {
        proof {
            reveal_strlit("2");
            assert("2"@ =~= seq![hex_char(2)]);
        }
        "2"
    } else if d == 3 {
        proof {
            reveal_strlit("3");
            assert("3"@ =~= seq![hex_char(3)]);
        }
        "3"
    } else if d == 4 {
        proof {
            reveal_strlit("4");
            assert("4"@ =~= seq![hex_char(4)]);
        }
        "4"
    } else if d == 5 {
        proof {
            reveal_strlit("5");
            assert("5"@ =~= seq![hex_char(5)]);
        }
        "5"
    } else if d == 6 {
        proof {
            reveal_strlit("6");
            assert("6"@ =~= seq![hex_char(6)]);
        }
        "6"
    } else if d == 7 {
        proof {
            reveal_strlit("7");
            assert("7"@ =~= seq![hex_char(7)]);
        }
        "7"
    } else if d == 8 {
        proof {
            reveal_strlit("8");
            assert("8"@ =~= seq![hex_char(8)]);
        }
        "8"
    } else if d == 9 {
        proof {
            reveal_strlit("9");
            assert("9"@ =~= seq![hex_char(9)]);
        }
        "9"
    } else if d == 10 {
        proof {
            reveal_strlit("a");
            assert("a"@ =~= seq![hex_char(10)]);
        }
        "a"
    } else if d == 11 {
        proof {
            reveal_strlit("b");
            assert("b"@ =~= seq![hex_char(11)]);
        }
        "b"
    } else if d == 12 {
        proof {
            reveal_strlit("c");
            assert("c"@ =~= seq![hex_char(12)]);
        }
        "c"
    } else if d == 13 {
        proof {
            reveal_strlit("d");
            assert("d"@ =~= seq![hex_char(13)]);
        }
        "d"
    } else if d == 14 {
        proof {
            reveal_strlit("e");
            assert("e"@ =~= seq![hex_char(14)]);
        }
        "e"
    } else {
        proof {
            reveal_strlit("f");
            assert("f"@ =~= seq![hex_char(15)]);
        }
        "f"
    }
}

/// Writes a felt as its canonical text.
pub fn encode_felt_text(f: &Felt) -> (s: String)
    requires
        f.wf(),
    ensures
        s@ == felt_text(f@),
{
    let mut s = "0x".to_owned();
    proof {
        reveal_strlit("0x");
        assert(s@ =~= felt_text(f@).subrange(0, 2));
    }
    let mut i: usize = 0;
    while i < 32
        invariant
            i <= 32,
            f.wf(),
            s@ == felt_text(f@).subrange(0, 2 + 2 * (i as int)),
        decreases 32 - i,
    {
        let b = f.byte_at(i);
        s.append(hex_char_str(b / 16));
        s.append(hex_char_str(b % 16));
        proof {
            assert(felt_text(f@)[2 + 2 * (i as int)] == hex_char(f@[i as int] as int / 16));
            assert(felt_text(f@)[3 + 2 * (i as int)] == hex_char(f@[i as int] as int % 16));
            assert(s@ =~= felt_text(f@).subrange(0, 2 + 2 * (i + 1 as int)));
        }
        i += 1;
    }
    proof {
        assert(felt_text(f@).subrange(0, 66) =~= felt_text(f@));
    }
    s
}

/// Encodes one felt.
pub fn encode_felt(f: &Felt) -> (w: WireValue)
    requires
        f.wf(),
    ensures
        w@ == enc_felt(f@),
{
    WireValue::Str(encode_felt_text(f))
}

/// Encodes a felt sequence as an ordered list.
pub fn encode_felts(v: &Vec<Felt>) -> (w: WireValue)
    requires
        felts_wf(v@),
    ensures
        w@ == enc_felts(felts_view(v@)),
{
    let mut items: Vec<WireValue> = Vec::new();
    let mut i: usize = 0;
    while i < v.len()
        invariant
            i <= v.len(),
            felts_wf(v@),
            items@.len() == i,
            forall|j: int| 0 <= j < i ==> (#[trigger] items@[j])@ == enc_felt(v@[j]@),
        decreases v.len() - i,
    {
        assert(v@[i as int].wf());
        items.push(encode_felt(&v[i]));
        i += 1;
    }
    proof {
        lemma_items_view(items@);
        assert(items_view(items@) =~= Seq::new(
            felts_view(v@).len(),
            |j: int| enc_felt(felts_view(v@)[j]),
        ));
    }
    WireValue::Arr(items)
}

/// Encodes a data-availability mode as its fixed token.
pub fn encode_da(m: &DataAvailabilityMode) -> (w: WireValue)
    ensures
        w@ == enc_da(*m),
{
    match m {
        DataAvailabilityMode::L1 => WireValue::Str("L1".to_owned()),
        DataAvailabilityMode::L2 => WireValue::Str("L2".to_owned()),
    }
}

/// Encodes one resource bound as its two-field record.
pub fn encode_bounds(b: &ResourceBounds) -> (w: WireValue)
    ensures
        w@ == enc_bounds(*b),
{
    let mut fields: Vec<(String, WireValue)> = Vec::new();
    fields.push(("max_amount".to_owned(), WireValue::Num(b.max_amount)));
    fields.push(("max_price_per_unit".to_owned(), WireValue::Num(b.max_price_per_unit)));
    proof {
        lemma_entries_view(fields@);
        assert(entries_view(fields@) =~= enc_bounds(*b)->Obj_0);
    }
    WireValue::Obj(fields)
}

/// Encodes the resource bounds with exactly the two gas entries.
pub fn encode_rb(rb: &ResourceBoundsMapping) -> (w: WireValue)
    ensures
        w@ == enc_rb(*rb),
{
    let mut fields: Vec<(String, WireValue)> = Vec::new();
    fields.push(("l1_gas".to_owned(), encode_bounds(&rb.l1_gas)));
    fields.push(("l2_gas".to_owned(), encode_bounds(&rb.l2_gas)));
    proof {
        lemma_entries_view(fields@);
        assert(entries_view(fields@) =~= enc_rb(*rb)->Obj_0);
    }
    WireValue::Obj(fields)
}

#[verifier::rlimit(100)]
fn encode_declare_v3(d: &RPCDeclareTransactionV3) -> (w: WireValue)
    requires
        d@.wf(),
    ensures
        w@ == spec_encode(TransactionModel::DeclareV3(d@)),
{
    proof {
        lemma_felts_wf_iff(d.contract_class.0@);
        lemma_felts_wf_iff(d.signature.0@);
        lemma_felts_wf_iff(d.paymaster_data.0@);
        lemma_felts_wf_iff(d.account_deployment_data.0@);
    }
    let mut fields: Vec<(String, WireValue)> = Vec::new();
    fields.push(("type".to_owned(), WireValue::Str("DECLARE".to_owned())));
    fields.push(("version".to_owned(), WireValue::Str("0x3".to_owned())));
    fields.push(("contract_class".to_owned(), encode_felts(&d.contract_class.0)));
    fields.push(("resource_bounds".to_owned(), encode_rb(&d.resource_bounds)));
    fields.push(("tip".to_owned(), WireValue::Num(d.tip.0)));
    fields.push(("signature".to_owned(), encode_felts(&d.signature.0)));
    fields.push(("nonce".to_owned(), encode_felt(&d.nonce.0)));
    fields.push(("compiled_class_hash".to_owned(), encode_felt(&d.compiled_class_hash.0)));
    fields.push(("sender_address".to_owned(), encode_felt(d.sender_address.0.felt())));
    fields.push(
        ("nonce_data_availability_mode".to_owned(), encode_da(&d.nonce_data_availability_mode)),
    );
    fields.push(
        ("fee_data_availability_mode".to_owned(), encode_da(&d.fee_data_availability_mode)),
    );
    fields.push(("paymaster_data".to_owned(), encode_felts(&d.paymaster_data.0)));
    fields.push(
        ("account_deployment_data".to_owned(), encode_felts(&d.account_deployment_data.0)),
    );
    proof {
        lemma_entries_view(fields@);
        assert(entries_view(fields@) =~= spec_encode(TransactionModel::DeclareV3(d@))->Obj_0);
    }
    WireValue::Obj(fields)
}

#[verifier::rlimit(100)]
fn encode_deploy_account_v3(d: &RPCDeployAccountTransactionV3) -> (w: WireValue)
    requires
        d@.wf(),
    ensures
        w@ == spec_encode(TransactionModel::DeployAccountV3(d@)),
{
    proof {
        lemma_felts_wf_iff(d.constructor_calldata.0@);
        lemma_felts_wf_iff(d.signature.0@);
        lemma_felts_wf_iff(d.paymaster_data.0@);
    }
    let mut fields: Vec<(String, WireValue)> = Vec::new();
    fields.push(("type".to_owned(), WireValue::Str("DEPLOY_ACCOUNT".to_owned())));
    fields.push(("version".to_owned(), WireValue::Str("0x3".to_owned())));
    fields.push(("resource_bounds".to_owned(), encode_rb(&d.resource_bounds)));
    fields.push(("tip".to_owned(), WireValue::Num(d.tip.0)));
    fields.push(("contract_address_salt".to_owned(), encode_felt(&d.contract_address_salt.0)));
    fields.push(("class_hash".to_owned(), encode_felt(&d.class_hash.0)));
    fields.push(("constructor_calldata".to_owned(), encode_felts(&d.constructor_calldata.0)));
    fields.push(("nonce".to_owned(), encode_felt(&d.nonce.0)));
    fields.push(("signature".to_owned(), encode_felts(&d.signature.0)));
    fields.push(
        ("nonce_data_availability_mode".to_owned(), encode_da(&d.nonce_data_availability_mode)),
    );
    fields.push(
        ("fee_data_availability_mode".to_owned(), encode_da(&d.fee_data_availability_mode)),
    );
    fields.push(("paymaster_data".to_owned(), encode_felts(&d.paymaster_data.0)));
    proof {
        lemma_entries_view(fields@);
        assert(entries_view(fields@) =~= spec_encode(
            TransactionModel::DeployAccountV3(d@),
        )->Obj_0);
    }
    WireValue::Obj(fields)
}

#[verifier::rlimit(100)]
fn encode_invoke_v3(d: &RPCInvokeTransactionV3) -> (w: WireValue)
    requires
        d@.wf(),
    ensures
        w@ == spec_encode(TransactionModel::InvokeV3(d@)),
{
    proof {
        lemma_felts_wf_iff(d.calldata.0@);
        lemma_felts_wf_iff(d.signature.0@);
        lemma_felts_wf_iff(d.paymaster_data.0@);
        lemma_felts_wf_iff(d.account_deployment_data.0@);
    }
    let mut fields: Vec<(String, WireValue)> = Vec::new();
    fields.push(("type".to_owned(), WireValue::Str("INVOKE".to_owned())));
    fields.push(("version".to_owned(), WireValue::Str("0x3".to_owned())));
    fields.push(("resource_bounds".to_owned(), encode_rb(&d.resource_bounds)));
    fields.push(("tip".to_owned(), WireValue::Num(d.tip.0)));
    fields.push(("calldata".to_owned(), encode_felts(&d.calldata.0)));
    fields.push(("sender_address".to_owned(), encode_felt(d.sender_address.0.felt())));
    fields.push(("nonce".to_owned(), encode_felt(&d.nonce.0)));
    fields.push(("signature".to_owned(), encode_felts(&d.signature.0)));
    fields.push(
        ("nonce_data_availability_mode".to_owned(), encode_da(&d.nonce_data_availability_mode)),
    );
    fields.push(
        ("fee_data_availability_mode".to_owned(), encode_da(&d.fee_data_availability_mode)),
    );
    fields.push(("paymaster_data".to_owned(), encode_felts(&d.paymaster_data.0)));
    fields.push(
        ("account_deployment_data".to_owned(), encode_felts(&d.account_deployment_data.0)),
    );
    proof {
        lemma_entries_view(fields@);
        assert(entries_view(fields@) =~= spec_encode(TransactionModel::InvokeV3(d@))->Obj_0);
    }
    WireValue::Obj(fields)
}

/// Encodes a transaction to its wire value. Encoding never fails: a validly
/// constructed transaction always has its one canonical wire form.
pub fn encode(t: &RPCTransaction) -> (w: WireValue)
    requires
        t@.wf(),
    ensures
        w@ == spec_encode(t@),
{
    match t {
        RPCTransaction::Declare(RPCDeclareTransaction::V3(d)) => encode_declare_v3(d),
        RPCTransaction::DeployAccount(RPCDeployAccountTransaction::V3(d)) => (
        encode_deploy_account_v3(d)),
        RPCTransaction::Invoke(RPCInvokeTransaction::V3(d)) => encode_invoke_v3(d),
    }
}

/// The value of a hexadecimal character, if it is one.
fn hex_val_u8(c: char) -> (r: Option<u8>)
    ensures
        r is Some <==> is_hex_char(c),
        r matches Some(d) ==> d as int == hex_val(c) && d < 16,
{
    if c == '0' {
        Some(0)
    } else if c == '1' {
        Some(1)
    } else if c == '2' {
        Some(2)
    } else if c == '3' {
        Some(3)
    } else if c == '4' {
        Some(4)
    } else if c == '5' {
        Some(5)
    } else if c == '6' {
        Some(6)
    } else if c == '7' {
        Some(7)
    } else if c == '8' {
        Some(8)
    } else if c == '9' {
        Some(9)
    } else if c == 'a' {
        Some(10)
    } else if c == 'b' {
        Some(11)
    } else if c == 'c' {
        Some(12)
    } else if c == 'd' {
        Some(13)
    } else if c == 'e' {
        Some(14)
    } else if c == 'f' {
        Some(15)
    } else {
        None
    }
}

/// Reads a felt from its canonical text; anything else yields nothing.
pub fn parse_felt(s: &String) -> (r: Option<Felt>)
    ensures
        match r {
            Some(f) => parse_felt_text(s@) == Some(f@) && f.wf(),
            Option::None => parse_felt_text(s@) is None,
        },
{
    let st = s.as_str();
    if st.unicode_len() != 66 {
        return None;
    }
    if st.get_char(0) != '0' || st.get_char(1) != 'x' {
        return None;
    }
    let mut bytes: Vec<u8> = Vec::new();
    let mut i: usize = 0;
    while i < 32
        invariant
            i <= 32,
            s@.len() == 66,
            s@[0] == '0',
            s@[1] == 'x',
            st@ == s@,
            bytes@.len() == i,
            forall|j: int|
                0 <= j < i ==> is_hex_char(#[trigger] s@[2 * j + 2]) && is_hex_char(s@[2 * j + 3]),
            forall|j: int|
                0 <= j < i ==> bytes@[j] == (hex_val(s@[2 * j + 2]) * 16 + hex_val(
                    s@[2 * j + 3],
                )) as u8,
        decreases 32 - i,
    {
        let hi = match hex_val_u8(st.get_char(2 * i + 2)) {
            Some(d) => d,
            None => {
                return None;
            },
        };
        let lo = match hex_val_u8(st.get_char(2 * i + 3)) {
            Some(d) => d,
            None => {
                return None;
            },
        };
        bytes.push(hi * 16 + lo);
        i += 1;
    }
    proof {
        assert forall|k: int| 2 <= k < 66 implies is_hex_char(#[trigger] s@[k]) by {
            let j = (k - 2) / 2;
            assert(0 <= j < 32);
            assert(is_hex_char(s@[2 * j + 2]) && is_hex_char(s@[2 * j + 3]));
            if (k - 2) % 2 == 0 {
                assert(k == 2 * j + 2);
            } else {
                assert(k == 2 * j + 3);
            }
        }
        assert(parse_felt_text(s@) is Some);
        assert(bytes@ =~= parse_felt_text(s@)->Some_0);
    }
    match Felt::from_be_bytes(bytes) {
        Some(f) => Some(f),
        None => {
            proof {
                assert(false);
            }
            None
        },
    }
}

/// Decodes one felt from a wire value.
fn decode_felt(v: &WireValue) -> (r: Result<Felt, DecodeError>)
    ensures
        match r {
            Ok(f) => dec_felt(v@) == Ok::<Seq<u8>, DecodeError>(f@) && f.wf(),
            Err(e) => dec_felt(v@) == Err::<Seq<u8>, DecodeError>(e),
        },
{
    match v {
        WireValue::Str(s) => match parse_felt(s) {
            Some(f) => Ok(f),
            None => Err(DecodeError::MalformedField),
        },
        _ => Err(DecodeError::MalformedField),
    }
}

/// Decodes a felt sequence from a wire value, keeping element order.
fn decode_felts(v: &WireValue) -> (r: Result<Vec<Felt>, DecodeError>)
    ensures
        match r {
            Ok(fs) => dec_felts(v@) == Ok::<Seq<Seq<u8>>, DecodeError>(felts_view(fs@))
                && felts_wf(fs@),
            Err(e) => dec_felts(v@) == Err::<Seq<Seq<u8>>, DecodeError>(e),
        },
{
    match v {
        WireValue::Arr(items) => {
            let ghost m = items_view(items@);
            proof {
                lemma_items_view(items@);
            }
            let mut out: Vec<Felt> = Vec::new();
            let mut i: usize = 0;
            while i < items.len()
                invariant
                    i <= items.len(),
                    out@.len() == i,
                    m == items_view(items@),
                    m.len() == items@.len(),
                    v@ == WireModel::Arr(m),
                    forall|j: int|
                        0 <= j < i ==> dec_felt(#[trigger] m[j]) == Ok::<Seq<u8>, DecodeError>(
                            out@[j]@,
                        ) && out@[j].wf(),
                decreases items.len() - i,
            {
                proof {
                    lemma_items_view(items@);
                }
                match decode_felt(&items[i]) {
                    Ok(f) => out.push(f),
                    Err(e) => {
                        proof {
                            assert(v@ == WireModel::Arr(m));
                            assert(dec_felt(m[i as int]) is Err);
                            assert(!(forall|j: int|
                                0 <= j < m.len() ==> dec_felt(#[trigger] m[j]) is Ok));
                        }
                        return Err(DecodeError::MalformedField);
                    },
                }
                i += 1;
            }
            proof {
                assert(v@ == WireModel::Arr(m));
                assert(Seq::new(m.len(), |j: int| dec_felt(m[j])->Ok_0) =~= felts_view(out@));
                assert forall|j: int| 0 <= j < out@.len() implies (#[trigger] out@[j]).wf() by {
                    assert(dec_felt(m[j]) == Ok::<Seq<u8>, DecodeError>(out@[j]@));
                }
            }
            Ok(out)
        },
        _ => Err(DecodeError::MalformedField),
    }
}

/// Decodes a data-availability mode from a wire value.
fn decode_da(v: &WireValue) -> (r: Result<DataAvailabilityMode, DecodeError>)
    ensures
        r == dec_da(v@),
{
    match v {
        WireValue::Str(s) => {
            if s.eq(&"L1".to_owned()) {
                Ok(DataAvailabilityMode::L1)
            } else if s.eq(&"L2".to_owned()) {
                Ok(DataAvailabilityMode::L2)
            } else {
                Err(DecodeError::MalformedField)
            }
        },
        _ => Err(DecodeError::MalformedField),
    }
}

/// Decodes one resource bound from its record.
fn decode_bounds(v: &WireValue) -> (r: Result<ResourceBounds, DecodeError>)
    ensures
        r == dec_bounds(v@),
{
    match v {
        WireValue::Obj(fields) => {
            let max_amount = match obj_get(fields, &"max_amount".to_owned()) {
                None => {
                    return Err(DecodeError::MissingField);
                },
                Some(WireValue::Num(n)) => *n,
                Some(_) => {
                    return Err(DecodeError::MalformedField);
                },
            };
            let max_price_per_unit = match obj_get(fields, &"max_price_per_unit".to_owned()) {
                None => {
                    return Err(DecodeError::MissingField);
                },
                Some(WireValue::Num(n)) => *n,
                Some(_) => {
                    return Err(DecodeError::MalformedField);
                },
            };
            Ok(ResourceBounds { max_amount, max_price_per_unit })
        },
        _ => Err(DecodeError::MalformedField),
    }
}

/// Decodes the resource bounds: both gas entries must be present.
fn decode_rb(v: &WireValue) -> (r: Result<ResourceBoundsMapping, DecodeError>)
    ensures
        r == dec_rb(v@),
{
    match v {
        WireValue::Obj(fields) => {
            let l1_gas = match obj_get(fields, &"l1_gas".to_owned()) {
                None => {
                    return Err(DecodeError::MissingField);
                },
                Some(b) => match decode_bounds(b) {
                    Ok(x) => x,
                    Err(e) => {
                        return Err(e);
                    },
                },
            };
            let l2_gas = match obj_get(fields, &"l2_gas".to_owned()) {
                None => {
                    return Err(DecodeError::MissingField);
                },
                Some(b) => match decode_bounds(b) {
                    Ok(x) => x,
                    Err(e) => {
                        return Err(e);
                    },
                },
            };
            Ok(ResourceBoundsMapping { l1_gas, l2_gas })
        },
        _ => Err(DecodeError::MalformedField),
    }
}

/// The model of a decoded transaction, error and all.
pub open spec fn decoded_model(r: Result<RPCTransaction, DecodeError>) -> Result<
    TransactionModel,
    DecodeError,
> {
    match r {
        Ok(t) => Ok(t@),
        Err(e) => Err(e),
    }
}

#[verifier::rlimit(100)]
fn decode_declare_v3(fields: &Vec<(String, WireValue)>) -> (r: Result<
    RPCTransaction,
    DecodeError,
>)
    ensures
        decoded_model(r) == (match check_version(entries_view(fields@)) {
            Err(e) => Err::<TransactionModel, DecodeError>(e),
            Ok(u) => dec_declare_v3(entries_view(fields@)),
        }),
{
    match obj_get(fields, &"version".to_owned()) {
        None => {
            return Err(DecodeError::MissingField);
        },
        Some(WireValue::Str(v)) => {
            if !v.eq(&"0x3".to_owned()) {
                return Err(DecodeError::UnknownVariant);
            }
        },
        Some(_) => {
            return Err(DecodeError::MalformedField);
        },
    }
    let contract_class = match obj_get(fields, &"contract_class".to_owned()) {
        None => {
            return Err(DecodeError::MissingField);
        },
        Some(v) => match decode_felts(v) {
            Ok(x) => x,
            Err(e) => {
                return Err(e);
            },
        },
    };
    let resource_bounds = match obj_get(fields, &"resource_bounds".to_owned()) {
        None => {
            return Err(DecodeError::MissingField);
        },
        Some(v) => match decode_rb(v) {
            Ok(x) => x,
            Err(e) => {
                return Err(e);
            },
        },
    };
    let tip = match obj_get(fields, &"tip".to_owned()) {
        None => {
            return Err(DecodeError::MissingField);
        },
        Some(WireValue::Num(n)) => *n,
        Some(_) => {
            return Err(DecodeError::MalformedField);
        },
    };
    let signature = match obj_get(fields, &"signature".to_owned()) {
        None => {
            return Err(DecodeError::MissingField);
        },
        Some(v) => match decode_felts(v) {
            Ok(x) => x,
            Err(e) => {
                return Err(e);
            },
        },
    };
    let nonce = match obj_get(fields, &"nonce".to_owned()) {
        None => {
            return Err(DecodeError::MissingField);
        },
        Some(v) => match decode_felt(v) {
            Ok(x) => x,
            Err(e) => {
                return Err(e);
            },
        },
    };
    let compiled_class_hash = match obj_get(fields, &"compiled_class_hash".to_owned()) {
        None => {
            return Err(DecodeError::MissingField);
        },
        Some(v) => match decode_felt(v) {
            Ok(x) => x,
            Err(e) => {
                return Err(e);
            },
        },
    };
    let sender_felt = match obj_get(fields, &"sender_address".to_owned()) {
        None => {
            return Err(DecodeError::MissingField);
        },
        Some(v) => match decode_felt(v) {
            Ok(x) => x,
            Err(e) => {
                return Err(e);
            },
        },
    };
    let sender_address = match ContractAddress::try_new(sender_felt) {
        Ok(a) => a,
        Err(_e) => {
            return Err(DecodeError::MalformedField);
        },
    };
    let nonce_data_availability_mode = match obj_get(
        fields,
        &"nonce_data_availability_mode".to_owned(),
    ) {
        None => {
            return Err(DecodeError::MissingField);
        },
        Some(v) => match decode_da(v) {
            Ok(x) => x,
            Err(e) => {
                return Err(e);
            },
        },
    };
    let fee_data_availability_mode = match obj_get(
        fields,
        &"fee_data_availability_mode".to_owned(),
    ) {
        None => {
            return Err(DecodeError::MissingField);
        },
        Some(v) => match decode_da(v) {
            Ok(x) => x,
            Err(e) => {
                return Err(e);
            },
        },
    };
    let paymaster_data = match obj_get(fields, &"paymaster_data".to_owned()) {
        None => {
            return Err(DecodeError::MissingField);
        },
        Some(v) => match decode_felts(v) {
            Ok(x) => x,
            Err(e) => {
                return Err(e);
            },
        },
    };
    let account_deployment_data = match obj_get(fields, &"account_deployment_data".to_owned()) {
        None => {
            return Err(DecodeError::MissingField);
        },
        Some(v) => match decode_felts(v) {
            Ok(x) => x,
            Err(e) => {
                return Err(e);
            },
        },
    };
    Ok(
        RPCTransaction::Declare(
            RPCDeclareTransaction::V3(
                RPCDeclareTransactionV3 {
                    contract_class: ContractClass(contract_class),
                    resource_bounds,
                    tip: Tip(tip),
                    signature: TransactionSignature(signature),
                    nonce: Nonce(nonce),
                    compiled_class_hash: CompiledClassHash(compiled_class_hash),
                    sender_address,
                    nonce_data_availability_mode,
                    fee_data_availability_mode,
                    paymaster_data: PaymasterData(paymaster_data),
                    account_deployment_data: AccountDeploymentData(account_deployment_data),
                },
            ),
        ),
    )
}

#[verifier::rlimit(100)]
fn decode_deploy_account_v3(fields: &Vec<(String, WireValue)>) -> (r: Result<
    RPCTransaction,
    DecodeError,
>)
    ensures
        decoded_model(r) == (match check_version(entries_view(fields@)) {
            Err(e) => Err::<TransactionModel, DecodeError>(e),
            Ok(u) => dec_deploy_account_v3(entries_view(fields@)),
        }),
{
    match obj_get(fields, &"version".to_owned()) {
        None => {
            return Err(DecodeError::MissingField);
        },
        Some(WireValue::Str(v)) => {
            if !v.eq(&"0x3".to_owned()) {
                return Err(DecodeError::UnknownVariant);
            }
        },
        Some(_) => {
            return Err(DecodeError::MalformedField);
        },
    }
    let resource_bounds = match obj_get(fields, &"resource_bounds".to_owned()) {
        None => {
            return Err(DecodeError::MissingField);
        },
        Some(v) => match decode_rb(v) {
            Ok(x) => x,
            Err(e) => {
                return Err(e);
            },
        },
    };
    let tip = match obj_get(fields, &"tip".to_owned()) {
        None => {
            return Err(DecodeError::MissingField);
        },
        Some(WireValue::Num(n)) => *n,
        Some(_) => {
            return Err(DecodeError::MalformedField);
        },
    };
    let contract_address_salt = match obj_get(fields, &"contract_address_salt".to_owned()) {
        None => {
            return Err(DecodeError::MissingField);
        },
        Some(v) => match decode_felt(v) {
            Ok(x) => x,
            Err(e) => {
                return Err(e);
            },
        },
    };
    let class_hash = match obj_get(fields, &"class_hash".to_owned()) {
        None => {
            return Err(DecodeError::MissingField);
        },
        Some(v) => match decode_felt(v) {
            Ok(x) => x,
            Err(e) => {
                return Err(e);
            },
        },
    };
    let constructor_calldata = match obj_get(fields, &"constructor_calldata".to_owned()) {
        None => {
            return Err(DecodeError::MissingField);
        },
        Some(v) => match decode_felts(v) {
            Ok(x) => x,
            Err(e) => {
                return Err(e);
            },
        },
    };
    let nonce = match obj_get(fields, &"nonce".to_owned()) {
        None => {
            return Err(DecodeError::MissingField);
        },
        Some(v) => match decode_felt(v) {
            Ok(x) => x,
            Err(e) => {
                return Err(e);
            },
        },
    };
    let signature = match obj_get(fields, &"signature".to_owned()) {
        None => {
            return Err(DecodeError::MissingField);
        },
        Some(v) => match decode_felts(v) {
            Ok(x) => x,
            Err(e) => {
                return Err(e);
            },
        },
    };
    let nonce_data_availability_mode = match obj_get(
        fields,
        &"nonce_data_availability_mode".to_owned(),
    ) {
        None => {
            return Err(DecodeError::MissingField);
        },
        Some(v) => match decode_da(v) {
            Ok(x) => x,
            Err(e) => {
                return Err(e);
            },
        },
    };
    let fee_data_availability_mode = match obj_get(
        fields,
        &"fee_data_availability_mode".to_owned(),
    ) {
        None => {
            return Err(DecodeError::MissingField);
        },
        Some(v) => match decode_da(v) {
            Ok(x) => x,
            Err(e) => {
                return Err(e);
            },
        },
    };
    let paymaster_data = match obj_get(fields, &"paymaster_data".to_owned()) {
        None => {
            return Err(DecodeError::MissingField);
        },
        Some(v) => match decode_felts(v) {
            Ok(x) => x,
            Err(e) => {
                return Err(e);
            },
        },
    };
    Ok(
        RPCTransaction::DeployAccount(
            RPCDeployAccountTransaction::V3(
                RPCDeployAccountTransactionV3 {
                    resource_bounds,
                    tip: Tip(tip),
                    contract_address_salt: ContractAddressSalt(contract_address_salt),
                    class_hash: ClassHash(class_hash),
                    constructor_calldata: Calldata(Arc::new(constructor_calldata)),
                    nonce: Nonce(nonce),
                    signature: TransactionSignature(signature),
                    nonce_data_availability_mode,
                    fee_data_availability_mode,
                    paymaster_data: PaymasterData(paymaster_data),
                },
            ),
        ),
    )
}

#[verifier::rlimit(100)]
fn decode_invoke_v3(fields: &Vec<(String, WireValue)>) -> (r: Result<RPCTransaction, DecodeError>)
    ensures
        decoded_model(r) == (match check_version(entries_view(fields@)) {
            Err(e) => Err::<TransactionModel, DecodeError>(e),
            Ok(u) => dec_invoke_v3(entries_view(fields@)),
        }),
{
    match obj_get(fields, &"version".to_owned()) {
        None => {
            return Err(DecodeError::MissingField);
        },
        Some(WireValue::Str(v)) => {
            if !v.eq(&"0x3".to_owned()) {
                return Err(DecodeError::UnknownVariant);
            }
        },
        Some(_) => {
            return Err(DecodeError::MalformedField);
        },
    }
    let resource_bounds = match obj_get(fields, &"resource_bounds".to_owned()) {
        None => {
            return Err(DecodeError::MissingField);
        },
        Some(v) => match decode_rb(v) {
            Ok(x) => x,
            Err(e) => {
                return Err(e);
            },
        },
    };
    let tip = match obj_get(fields, &"tip".to_owned()) {
        None => {
            return Err(DecodeError::MissingField);
        },
        Some(WireValue::Num(n)) => *n,
        Some(_) => {
            return Err(DecodeError::MalformedField);
        },
    };
    let calldata = match obj_get(fields, &"calldata".to_owned()) {
        None => {
            return Err(DecodeError::MissingField);
        },
        Some(v) => match decode_felts(v) {
            Ok(x) => x,
            Err(e) => {
                return Err(e);
            },
        },
    };
    let sender_felt = match obj_get(fields, &"sender_address".to_owned()) {
        None => {
            return Err(DecodeError::MissingField);
        },
        Some(v) => match decode_felt(v) {
            Ok(x) => x,
            Err(e) => {
                return Err(e);
            },
        },
    };
    let sender_address = match ContractAddress::try_new(sender_felt) {
        Ok(a) => a,
        Err(_e) => {
            return Err(DecodeError::MalformedField);
        },
    };
    let nonce = match obj_get(fields, &"nonce".to_owned()) {
        None => {
            return Err(DecodeError::MissingField);
        },
        Some(v) => match decode_felt(v) {
            Ok(x) => x,
            Err(e) => {
                return Err(e);
            },
        },
    };
    let signature = match obj_get(fields, &"signature".to_owned()) {
        None => {
            return Err(DecodeError::MissingField);
        },
        Some(v) => match decode_felts(v) {
            Ok(x) => x,
            Err(e) => {
                return Err(e);
            },
        },
    };
    let nonce_data_availability_mode = match obj_get(
        fields,
        &"nonce_data_availability_mode".to_owned(),
    ) {
        None => {
            return Err(DecodeError::MissingField);
        },
        Some(v) => match decode_da(v) {
            Ok(x) => x,
            Err(e) => {
                return Err(e);
            },
        },
    };
    let fee_data_availability_mode = match obj_get(
        fields,
        &"fee_data_availability_mode".to_owned(),
    ) {
        None => {
            return Err(DecodeError::MissingField);
        },
        Some(v) => match decode_da(v) {
            Ok(x) => x,
            Err(e) => {
                return Err(e);
            },
        },
    };
    let paymaster_data = match obj_get(fields, &"paymaster_data".to_owned()) {
        None => {
            return Err(DecodeError::MissingField);
        },
        Some(v) => match decode_felts(v) {
            Ok(x) => x,
            Err(e) => {
                return Err(e);
            },
        },
    };
    let account_deployment_data = match obj_get(fields, &"account_deployment_data".to_owned()) {
        None => {
            return Err(DecodeError::MissingField);
        },
        Some(v) => match decode_felts(v) {
            Ok(x) => x,
            Err(e) => {
                return Err(e);
            },
        },
    };
    Ok(
        RPCTransaction::Invoke(
            RPCInvokeTransaction::V3(
                RPCInvokeTransactionV3 {
                    resource_bounds,
                    tip: Tip(tip),
                    calldata: Calldata(Arc::new(calldata)),
                    sender_address,
                    nonce: Nonce(nonce),
                    signature: TransactionSignature(signature),
                    nonce_data_availability_mode,
                    fee_data_availability_mode,
                    paymaster_data: PaymasterData(paymaster_data),
                    account_deployment_data: AccountDeploymentData(account_deployment_data),
                },
            ),
        ),
    )
}

/// Decodes a transaction from a wire value: the typed mirror of
/// `spec_decode`. Every failure is a typed error; no partial value is ever
/// returned.
pub fn decode(w: &WireValue) -> (r: Result<RPCTransaction, DecodeError>)
    ensures
        decoded_model(r) == spec_decode(w@),
        r matches Ok(t) ==> t@.wf(),
{
    proof {
        lemma_decode_wf(w@);
    }
    match w {
        WireValue::Obj(fields) => match obj_get(fields, &"type".to_owned()) {
            None => Err(DecodeError::MissingField),
            Some(WireValue::Str(t)) => {
                if t.eq(&"DECLARE".to_owned()) {
                    decode_declare_v3(fields)
                } else if t.eq(&"DEPLOY_ACCOUNT".to_owned()) {
                    decode_deploy_account_v3(fields)
                } else if t.eq(&"INVOKE".to_owned()) {
                    decode_invoke_v3(fields)
                } else {
                    Err(DecodeError::UnknownVariant)
                }
            },
            Some(_) => Err(DecodeError::MalformedField),
        },
        _ => Err(DecodeError::MalformedField),
    }
}

} // verus!
