//! The shared value types of a transaction envelope: scalar wrappers over
//! field elements, ordered field-element sequences, fee resource bounds and
//! the data-availability mode.

use crate::felt::{address_bound, be_value, Felt};
use std::sync::Arc;
use vstd::prelude::*;

verus! {

/// Error raised when a scalar wrapper is built from an out-of-range value.
/// Construction is the only fallible step in building a transaction.
#[derive(Clone, Copy, Debug, PartialEq, Eq, Structural)]
pub enum ConstructionError {
    OutOfRange,
}

/// The model of a sequence of field elements: the sequence of their
/// big-endian byte strings.
pub open spec fn felts_view(v: Seq<Felt>) -> Seq<Seq<u8>> {
    Seq::new(v.len(), |i: int| v[i]@)
}

/// Every element carries its full 32 bytes.
pub open spec fn felts_wf(v: Seq<Felt>) -> bool {
    forall|i: int| 0 <= i < v.len() ==> (#[trigger] v[i]).wf()
}

/// A transaction tip, a plain 64-bit amount.
#[derive(Clone, Copy, Debug, PartialEq, Eq, Structural, Default)]
pub struct Tip(pub u64);

/// A nonce of an account, a field element.
#[derive(Clone, Debug, PartialEq, Eq)]
pub struct Nonce(pub Felt);

/// The hash of a compiled contract class, a field element.
#[derive(Clone, Debug, PartialEq, Eq)]
pub struct CompiledClassHash(pub Felt);

/// The hash of a declared contract class, a field element.
#[derive(Clone, Debug, PartialEq, Eq)]
pub struct ClassHash(pub Felt);

/// The salt used when deriving a deployed account's address.
#[derive(Clone, Debug, PartialEq, Eq)]
pub struct ContractAddressSalt(pub Felt);

/// A key of the global state tree: a field element whose value lies below
/// `2^251`.
#[derive(Clone, Debug, PartialEq, Eq)]
pub struct PatriciaKey {
    key: Felt,
}

impl View for PatriciaKey {
    type V = Seq<u8>;

    closed spec fn view(&self) -> Seq<u8> {
        self.key@
    }
}

impl PatriciaKey {
    /// A key is well formed when it is a full felt whose value lies in the
    /// key space.
    pub open spec fn wf(&self) -> bool {
        self@.len() == 32 && be_value(self@) < address_bound()
    }

    /// The felt the key wraps.
    pub fn felt(&self) -> (r: &Felt)
        ensures
            r@ == self@,
    {
        &self.key
    }

    /// Builds a key from a felt, rejecting values outside the key space.
    pub fn try_new(key: Felt) -> (r: Result<PatriciaKey, ConstructionError>)
        requires
            key.wf(),
        ensures
            r is Ok <==> be_value(key@) < address_bound(),
            r matches Ok(k) ==> k@ == key@ && k.wf(),
            r is Err ==> r == Result::<PatriciaKey, ConstructionError>::Err(
                ConstructionError::OutOfRange,
            ),
    {
        if key.in_address_space() {
            Ok(PatriciaKey { key })
        } else {
            Err(ConstructionError::OutOfRange)
        }
    }
}

/// The address of a contract: a valid key of the address key-space.
#[derive(Clone, Debug, PartialEq, Eq)]
pub struct ContractAddress(pub PatriciaKey);

impl View for ContractAddress {
    type V = Seq<u8>;

    open spec fn view(&self) -> Seq<u8> {
        self.0@
    }
}

impl ContractAddress {
    pub open spec fn wf(&self) -> bool {
        self.0.wf()
    }

    /// Builds an address from a felt, rejecting values outside the address
    /// key-space.
    pub fn try_new(addr: Felt) -> (r: Result<ContractAddress, ConstructionError>)
        requires
            addr.wf(),
        ensures
            r is Ok <==> be_value(addr@) < address_bound(),
            r matches Ok(a) ==> a@ == addr@ && a.wf(),
            r is Err ==> r == Result::<ContractAddress, ConstructionError>::Err(
                ConstructionError::OutOfRange,
            ),
    {
        match PatriciaKey::try_new(addr) {
            Ok(k) => Ok(ContractAddress(k)),
            Err(e) => Err(e),
        }
    }
}

/// The ordered signature of a transaction; element order is significant.
#[derive(Clone, Debug, PartialEq, Eq, Default)]
pub struct TransactionSignature(pub Vec<Felt>);

impl View for TransactionSignature {
    type V = Seq<Seq<u8>>;

    open spec fn view(&self) -> Seq<Seq<u8>> {
        felts_view(self.0@)
    }
}

impl TransactionSignature {
    pub open spec fn wf(&self) -> bool {
        felts_wf(self.0@)
    }
}

/// The ordered calldata of a call, shared by reference: the same buffer may
/// be held by several transactions without copying, and is never mutated
/// after construction.
#[derive(Clone, Debug, PartialEq, Eq)]
pub struct Calldata(pub Arc<Vec<Felt>>);

impl View for Calldata {
    type V = Seq<Seq<u8>>;

    open spec fn view(&self) -> Seq<Seq<u8>> {
        felts_view(self.0@)
    }
}

impl Calldata {
    pub open spec fn wf(&self) -> bool {
        felts_wf(self.0@)
    }
}

/// The ordered data handed to a paymaster.
#[derive(Clone, Debug, PartialEq, Eq, Default)]
pub struct PaymasterData(pub Vec<Felt>);

impl View for PaymasterData {
    type V = Seq<Seq<u8>>;

    open spec fn view(&self) -> Seq<Seq<u8>> {
        felts_view(self.0@)
    }
}

impl PaymasterData {
    pub open spec fn wf(&self) -> bool {
        felts_wf(self.0@)
    }
}

/// The ordered data used when a transaction also deploys the sending
/// account.
#[derive(Clone, Debug, PartialEq, Eq, Default)]
pub struct AccountDeploymentData(pub Vec<Felt>);

impl View for AccountDeploymentData {
    type V = Seq<Seq<u8>>;

    open spec fn view(&self) -> Seq<Seq<u8>> {
        felts_view(self.0@)
    }
}

impl AccountDeploymentData {
    pub open spec fn wf(&self) -> bool {
        felts_wf(self.0@)
    }
}

/// The cap a sender authorizes for one resource: a largest amount and a
/// largest price per unit.
#[derive(Clone, Copy, Debug, PartialEq, Eq, Structural, Default)]
pub struct ResourceBounds {
    pub max_amount: u64,
    pub max_price_per_unit: u64,
}

/// The resource bounds of a transaction: exactly one entry for L1 gas and
/// one for L2 gas, both always present.
#[derive(Clone, Copy, Debug, PartialEq, Eq, Structural, Default)]
pub struct ResourceBoundsMapping {
    pub l1_gas: ResourceBounds,
    pub l2_gas: ResourceBounds,
}

/// A fixed resource-bounds mapping with distinctive non-default amounts,
/// handy as a test fixture.
pub fn create_resource_bounds_for_testing() -> (r: ResourceBoundsMapping)
    ensures
        r == (ResourceBoundsMapping {
            l1_gas: ResourceBounds { max_amount: 100, max_price_per_unit: 12 },
            l2_gas: ResourceBounds { max_amount: 58, max_price_per_unit: 31 },
        }),
{
    ResourceBoundsMapping {
        l1_gas: ResourceBounds { max_amount: 100, max_price_per_unit: 12 },
        l2_gas: ResourceBounds { max_amount: 58, max_price_per_unit: 31 },
    }
}

/// Which settlement layer a piece of transaction data is published to.
#[derive(Clone, Copy, Debug, PartialEq, Eq, Structural)]
pub enum DataAvailabilityMode {
    L1,
    L2,
}

} // verus!
