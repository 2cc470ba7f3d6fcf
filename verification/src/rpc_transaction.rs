//! The transaction envelope: a discriminated union over the transaction
//! kinds (declare, deploy-account, invoke), each wrapping a union tagged by
//! protocol version. Only version 3 is populated; the shape admits further
//! versions without disturbing existing tags.

use crate::felt::{address_bound, be_value, Felt};
use crate::transaction::{
    felts_view, felts_wf, AccountDeploymentData, Calldata, ClassHash, CompiledClassHash,
    ContractAddress, ContractAddressSalt, DataAvailabilityMode, Nonce, PaymasterData,
    ResourceBoundsMapping, Tip, TransactionSignature,
};
use vstd::prelude::*;

verus! {

/// Every byte string of the sequence is a full 32-byte felt.
pub open spec fn all_felts(s: Seq<Seq<u8>>) -> bool {
    forall|i: int| 0 <= i < s.len() ==> (#[trigger] s[i]).len() == 32
}

/// A felt sequence is well formed exactly when its model is made of full
/// felts.
pub proof fn lemma_felts_wf_iff(v: Seq<Felt>)
    ensures
        felts_wf(v) <==> all_felts(felts_view(v)),
{
    if felts_wf(v) {
        assert forall|i: int| 0 <= i < felts_view(v).len() implies (#[trigger] felts_view(v)[i]).len()
            == 32 by {
            assert(v[i].wf());
        }
    }
    if all_felts(felts_view(v)) {
        assert forall|i: int| 0 <= i < v.len() implies (#[trigger] v[i]).wf() by {
            assert(felts_view(v)[i].len() == 32);
        }
    }
}

/// The compiled contract class being declared, carried opaquely: the
/// envelope transports the field-element payload that the class format
/// produced elsewhere, and never looks inside it.
#[derive(Clone, Debug, PartialEq, Eq, Default)]
pub struct ContractClass(pub Vec<Felt>);

impl View for ContractClass {
    type V = Seq<Seq<u8>>;

    open spec fn view(&self) -> Seq<Seq<u8>> {
        felts_view(self.0@)
    }
}

impl ContractClass {
    pub open spec fn wf(&self) -> bool {
        felts_wf(self.0@)
    }
}

/// A declare transaction, version 3.
#[derive(Clone, Debug, PartialEq, Eq)]
pub struct RPCDeclareTransactionV3 {
    pub contract_class: ContractClass,
    pub resource_bounds: ResourceBoundsMapping,
    pub tip: Tip,
    pub signature: TransactionSignature,
    pub nonce: Nonce,
    pub compiled_class_hash: CompiledClassHash,
    pub sender_address: ContractAddress,
    pub nonce_data_availability_mode: DataAvailabilityMode,
    pub fee_data_availability_mode: DataAvailabilityMode,
    pub paymaster_data: PaymasterData,
    pub account_deployment_data: AccountDeploymentData,
}

/// The mathematical model of a declare V3 transaction: every field element
/// as its 32-byte big-endian string.
#[verifier::ext_equal]
pub struct DeclareV3Model {
    pub contract_class: Seq<Seq<u8>>,
    pub resource_bounds: ResourceBoundsMapping,
    pub tip: u64,
    pub signature: Seq<Seq<u8>>,
    pub nonce: Seq<u8>,
    pub compiled_class_hash: Seq<u8>,
    pub sender_address: Seq<u8>,
    pub nonce_data_availability_mode: DataAvailabilityMode,
    pub fee_data_availability_mode: DataAvailabilityMode,
    pub paymaster_data: Seq<Seq<u8>>,
    pub account_deployment_data: Seq<Seq<u8>>,
}

impl DeclareV3Model {
    pub open spec fn wf(&self) -> bool {
        &&& all_felts(self.contract_class)
        &&& all_felts(self.signature)
        &&& self.nonce.len() == 32
        &&& self.compiled_class_hash.len() == 32
        &&& self.sender_address.len() == 32
        &&& be_value(self.sender_address) < address_bound()
        &&& all_felts(self.paymaster_data)
        &&& all_felts(self.account_deployment_data)
    }
}

impl View for RPCDeclareTransactionV3 {
    type V = DeclareV3Model;

    open spec fn view(&self) -> DeclareV3Model {
        DeclareV3Model {
            contract_class: self.contract_class@,
            resource_bounds: self.resource_bounds,
            tip: self.tip.0,
            signature: self.signature@,
            nonce: self.nonce.0@,
            compiled_class_hash: self.compiled_class_hash.0@,
            sender_address: self.sender_address@,
            nonce_data_availability_mode: self.nonce_data_availability_mode,
            fee_data_availability_mode: self.fee_data_availability_mode,
            paymaster_data: self.paymaster_data@,
            account_deployment_data: self.account_deployment_data@,
        }
    }
}

/// A deploy-account transaction, version 3. It carries no sender address:
/// the address of the account being deployed is derived, not supplied.
#[derive(Clone, Debug, PartialEq, Eq)]
pub struct RPCDeployAccountTransactionV3 {
    pub resource_bounds: ResourceBoundsMapping,
    pub tip: Tip,
    pub contract_address_salt: ContractAddressSalt,
    pub class_hash: ClassHash,
    pub constructor_calldata: Calldata,
    pub nonce: Nonce,
    pub signature: TransactionSignature,
    pub nonce_data_availability_mode: DataAvailabilityMode,
    pub fee_data_availability_mode: DataAvailabilityMode,
    pub paymaster_data: PaymasterData,
}

/// The mathematical model of a deploy-account V3 transaction.
#[verifier::ext_equal]
pub struct DeployAccountV3Model {
    pub resource_bounds: ResourceBoundsMapping,
    pub tip: u64,
    pub contract_address_salt: Seq<u8>,
    pub class_hash: Seq<u8>,
    pub constructor_calldata: Seq<Seq<u8>>,
    pub nonce: Seq<u8>,
    pub signature: Seq<Seq<u8>>,
    pub nonce_data_availability_mode: DataAvailabilityMode,
    pub fee_data_availability_mode: DataAvailabilityMode,
    pub paymaster_data: Seq<Seq<u8>>,
}

impl DeployAccountV3Model {
    pub open spec fn wf(&self) -> bool {
        &&& self.contract_address_salt.len() == 32
        &&& self.class_hash.len() == 32
        &&& all_felts(self.constructor_calldata)
        &&& self.nonce.len() == 32
        &&& all_felts(self.signature)
        &&& all_felts(self.paymaster_data)
    }
}

impl View for RPCDeployAccountTransactionV3 {
    type V = DeployAccountV3Model;

    open spec fn view(&self) -> DeployAccountV3Model {
        DeployAccountV3Model {
            resource_bounds: self.resource_bounds,
            tip: self.tip.0,
            contract_address_salt: self.contract_address_salt.0@,
            class_hash: self.class_hash.0@,
            constructor_calldata: self.constructor_calldata@,
            nonce: self.nonce.0@,
            signature: self.signature@,
            nonce_data_availability_mode: self.nonce_data_availability_mode,
            fee_data_availability_mode: self.fee_data_availability_mode,
            paymaster_data: self.paymaster_data@,
        }
    }
}

/// An invoke transaction, version 3.
#[derive(Clone, Debug, PartialEq, Eq)]
pub struct RPCInvokeTransactionV3 {
    pub resource_bounds: ResourceBoundsMapping,
    pub tip: Tip,
    pub calldata: Calldata,
    pub sender_address: ContractAddress,
    pub nonce: Nonce,
    pub signature: TransactionSignature,
    pub nonce_data_availability_mode: DataAvailabilityMode,
    pub fee_data_availability_mode: DataAvailabilityMode,
    pub paymaster_data: PaymasterData,
    pub account_deployment_data: AccountDeploymentData,
}

/// The mathematical model of an invoke V3 transaction.
#[verifier::ext_equal]
pub struct InvokeV3Model {
    pub resource_bounds: ResourceBoundsMapping,
    pub tip: u64,
    pub calldata: Seq<Seq<u8>>,
    pub sender_address: Seq<u8>,
    pub nonce: Seq<u8>,
    pub signature: Seq<Seq<u8>>,
    pub nonce_data_availability_mode: DataAvailabilityMode,
    pub fee_data_availability_mode: DataAvailabilityMode,
    pub paymaster_data: Seq<Seq<u8>>,
    pub account_deployment_data: Seq<Seq<u8>>,
}

impl InvokeV3Model {
    pub open spec fn wf(&self) -> bool {
        &&& all_felts(self.calldata)
        &&& self.sender_address.len() == 32
        &&& be_value(self.sender_address) < address_bound()
        &&& self.nonce.len() == 32
        &&& all_felts(self.signature)
        &&& all_felts(self.paymaster_data)
        &&& all_felts(self.account_deployment_data)
    }
}

impl View for RPCInvokeTransactionV3 {
    type V = InvokeV3Model;

    open spec fn view(&self) -> InvokeV3Model {
        InvokeV3Model {
            resource_bounds: self.resource_bounds,
            tip: self.tip.0,
            calldata: self.calldata@,
            sender_address: self.sender_address@,
            nonce: self.nonce.0@,
            signature: self.signature@,
            nonce_data_availability_mode: self.nonce_data_availability_mode,
            fee_data_availability_mode: self.fee_data_availability_mode,
            paymaster_data: self.paymaster_data@,
            account_deployment_data: self.account_deployment_data@,
        }
    }
}

/// The declare kind, tagged by protocol version.
#[derive(Clone, Debug, PartialEq, Eq)]
pub enum RPCDeclareTransaction {
    V3(RPCDeclareTransactionV3),
}

/// The deploy-account kind, tagged by protocol version.
#[derive(Clone, Debug, PartialEq, Eq)]
pub enum RPCDeployAccountTransaction {
    V3(RPCDeployAccountTransactionV3),
}

/// The invoke kind, tagged by protocol version.
#[derive(Clone, Debug, PartialEq, Eq)]
pub enum RPCInvokeTransaction {
    V3(RPCInvokeTransactionV3),
}

/// The model of a whole transaction: kind tag, version tag and the model of
/// the fields of that exact variant.
#[verifier::ext_equal]
pub enum TransactionModel {
    DeclareV3(DeclareV3Model),
    DeployAccountV3(DeployAccountV3Model),
    InvokeV3(InvokeV3Model),
}

impl TransactionModel {
    pub open spec fn wf(&self) -> bool {
        match self {
            TransactionModel::DeclareV3(t) => t.wf(),
            TransactionModel::DeployAccountV3(t) => t.wf(),
            TransactionModel::InvokeV3(t) => t.wf(),
        }
    }
}

/// A transaction envelope: exactly one kind active at a time.
#[derive(Clone, Debug, PartialEq, Eq)]
pub enum RPCTransaction {
    Declare(RPCDeclareTransaction),
    DeployAccount(RPCDeployAccountTransaction),
    Invoke(RPCInvokeTransaction),
}

impl View for RPCTransaction {
    type V = TransactionModel;

    open spec fn view(&self) -> TransactionModel {
        match self {
            RPCTransaction::Declare(RPCDeclareTransaction::V3(t)) => TransactionModel::DeclareV3(
                t@,
            ),
            RPCTransaction::DeployAccount(
                RPCDeployAccountTransaction::V3(t),
            ) => TransactionModel::DeployAccountV3(t@),
            RPCTransaction::Invoke(RPCInvokeTransaction::V3(t)) => TransactionModel::InvokeV3(t@),
        }
    }
}

} // verus!
