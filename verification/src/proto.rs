//! The messages of the peer-to-peer sync protocol.

use vstd::prelude::*;

use crate::felt::Felt;

verus! {

/// A hash carried in a message.
#[derive(Clone, Copy, Debug, PartialEq, Eq, Structural)]
pub struct Hash(pub Felt);

/// A contract address carried in a message.
#[derive(Clone, Copy, Debug, PartialEq, Eq, Structural)]
pub struct Address(pub Felt);

/// The root of a Merkle tree and the number of its leaves.
#[derive(Clone, Copy, Debug, PartialEq, Eq, Structural)]
pub struct Merkle {
    pub n_leaves: u32,
    pub root: Hash,
}

/// The root of a Patricia tree and its height.
#[derive(Clone, Copy, Debug, PartialEq, Eq, Structural)]
pub struct Patricia {
    pub height: u32,
    pub root: Hash,
}

/// A block header as it is sent to peers.
#[derive(Debug, PartialEq, Eq)]
pub struct BlockHeader {
    pub parent_hash: Hash,
    pub number: u64,
    /// Seconds since the Unix epoch.
    pub time: u64,
    pub sequencer_address: Address,
    pub state_diffs: Merkle,
    pub state: Patricia,
    pub proof_fact: Hash,
    pub transactions: Merkle,
    pub events: Merkle,
    pub receipts: Merkle,
    pub hash: Hash,
    /// The L1 gas price, big-endian.
    pub gas_price: Vec<u8>,
    pub starknet_version: String,
    pub state_commitment: Option<Hash>,
}

/// One storage write.
#[derive(Clone, Copy, Debug, PartialEq, Eq, Structural)]
pub struct ContractStoredValue {
    pub key: Felt,
    pub value: Felt,
}

/// What changed in one contract.
#[derive(Debug, PartialEq, Eq)]
pub struct ContractDiff {
    pub address: Address,
    pub nonce: Option<Felt>,
    pub class_hash: Option<Felt>,
    pub values: Vec<ContractStoredValue>,
}

/// The state changes of one block.
#[derive(Debug, PartialEq, Eq)]
pub struct StateDiff {
    pub domain: u32,
    pub contract_diffs: Vec<ContractDiff>,
}

/// The parts of a transaction's signature.
#[derive(Debug, PartialEq, Eq)]
pub struct AccountSignature {
    pub parts: Vec<Felt>,
}

/// A limit on one resource.
#[derive(Clone, Copy, Debug, PartialEq, Eq, Structural)]
pub struct ResourceLimits {
    pub max_amount: Felt,
    pub max_price_per_unit: Felt,
}

/// The limits on L1 and L2 gas.
#[derive(Clone, Copy, Debug, PartialEq, Eq, Structural)]
pub struct ResourceBounds {
    pub l1_gas: ResourceLimits,
    pub l2_gas: ResourceLimits,
}

#[derive(Debug, PartialEq, Eq)]
pub struct DeclareV0 {
    pub sender: Address,
    pub max_fee: Felt,
    pub signature: AccountSignature,
    pub class_hash: Hash,
}

#[derive(Debug, PartialEq, Eq)]
pub struct DeclareV1 {
    pub sender: Address,
    pub max_fee: Felt,
    pub signature: AccountSignature,
    pub class_hash: Hash,
    pub nonce: Felt,
}

#[derive(Debug, PartialEq, Eq)]
pub struct DeclareV2 {
    pub sender: Address,
    pub max_fee: Felt,
    pub signature: AccountSignature,
    pub class_hash: Hash,
    pub nonce: Felt,
    pub compiled_class_hash: Felt,
}

#[derive(Debug, PartialEq, Eq)]
pub struct DeclareV3 {
    pub sender: Address,
    pub signature: AccountSignature,
    pub class_hash: Hash,
    pub nonce: Felt,
    pub compiled_class_hash: Felt,
    pub resource_bounds: ResourceBounds,
    pub tip: Felt,
    pub paymaster_data: Address,
    pub account_deployment_data: Address,
    pub nonce_domain: String,
    pub fee_domain: String,
}

#[derive(Debug, PartialEq, Eq)]
pub struct Deploy {
    pub class_hash: Hash,
    pub address_salt: Felt,
    pub calldata: Vec<Felt>,
    pub address: Address,
    pub version: u32,
}

#[derive(Debug, PartialEq, Eq)]
pub struct DeployAccountV1 {
    pub max_fee: Felt,
    pub signature: AccountSignature,
    pub class_hash: Hash,
    pub nonce: Felt,
    pub address_salt: Felt,
    pub constructor_calldata: Vec<Felt>,
}

#[derive(Debug, PartialEq, Eq)]
pub struct DeployAccountV3 {
    pub signature: AccountSignature,
    pub class_hash: Hash,
    pub nonce: Felt,
    pub address_salt: Felt,
    pub calldata: Vec<Felt>,
    pub resource_bounds: ResourceBounds,
    pub tip: Felt,
    pub paymaster_data: Address,
    pub nonce_domain: String,
    pub fee_domain: String,
}

#[derive(Debug, PartialEq, Eq)]
pub struct InvokeV0 {
    pub max_fee: Felt,
    pub signature: AccountSignature,
    pub address: Address,
    pub entry_point_selector: Felt,
    pub calldata: Vec<Felt>,
}

#[derive(Debug, PartialEq, Eq)]
pub struct InvokeV1 {
    pub sender: Address,
    pub max_fee: Felt,
    pub signature: AccountSignature,
    pub nonce: Felt,
    pub calldata: Vec<Felt>,
}

#[derive(Debug, PartialEq, Eq)]
pub struct InvokeV3 {
    pub sender: Address,
    pub signature: AccountSignature,
    pub calldata: Vec<Felt>,
    pub resource_bounds: ResourceBounds,
    pub tip: Felt,
    pub paymaster_data: Address,
    pub account_deployment_data: Address,
    pub nonce_domain: String,
    pub fee_domain: String,
    pub nonce: Felt,
}

#[derive(Debug, PartialEq, Eq)]
pub struct L1HandlerV0 {
    pub nonce: Felt,
    pub address: Address,
    pub entry_point_selector: Felt,
    pub calldata: Vec<Felt>,
}

/// A transaction as it is sent to peers.
#[derive(Debug, PartialEq, Eq)]
pub enum Transaction {
    DeclareV0(DeclareV0),
    DeclareV1(DeclareV1),
    DeclareV2(DeclareV2),
    DeclareV3(DeclareV3),
    Deploy(Deploy),
    DeployAccountV1(DeployAccountV1),
    DeployAccountV3(DeployAccountV3),
    InvokeV0(InvokeV0),
    InvokeV1(InvokeV1),
    InvokeV3(InvokeV3),
    L1HandlerV0(L1HandlerV0),
}

/// An Ethereum address.
#[derive(Clone, Copy, Debug, PartialEq, Eq)]
pub struct EthereumAddress(pub [u8; 20]);

/// A message sent from L2 to L1.
#[derive(Debug, PartialEq, Eq)]
pub struct MessageToL1 {
    pub from_address: Felt,
    pub payload: Vec<Felt>,
    pub to_address: EthereumAddress,
}

/// The number of times each builtin was used.
#[derive(Clone, Copy, Debug, PartialEq, Eq, Structural)]
pub struct BuiltinCounter {
    pub bitwise: u32,
    pub ecdsa: u32,
    pub ec_op: u32,
    pub pedersen: u32,
    pub range_check: u32,
    pub poseidon: u32,
    pub keccak: u32,
    pub output: u32,
    pub segment_arena: u32,
}

/// The resources that executing a transaction used.
#[derive(Clone, Copy, Debug, PartialEq, Eq, Structural)]
pub struct ExecutionResources {
    pub builtins: BuiltinCounter,
    pub steps: u32,
    pub memory_holes: u32,
}

/// The part of a receipt that every kind of transaction has.
#[derive(Debug, PartialEq, Eq)]
pub struct ReceiptCommon {
    pub transaction_hash: Hash,
    pub actual_fee: Felt,
    pub messages_sent: Vec<MessageToL1>,
    pub execution_resources: ExecutionResources,
    pub revert_reason: String,
}

#[derive(Debug, PartialEq, Eq)]
pub struct InvokeTransactionReceipt {
    pub common: ReceiptCommon,
}

#[derive(Debug, PartialEq, Eq)]
pub struct L1HandlerTransactionReceipt {
    pub common: ReceiptCommon,
    pub msg_hash: Hash,
}

#[derive(Debug, PartialEq, Eq)]
pub struct DeclareTransactionReceipt {
    pub common: ReceiptCommon,
}

#[derive(Debug, PartialEq, Eq)]
pub struct DeployTransactionReceipt {
    pub common: ReceiptCommon,
    pub contract_address: Felt,
}

#[derive(Debug, PartialEq, Eq)]
pub struct DeployAccountTransactionReceipt {
    pub common: ReceiptCommon,
    pub contract_address: Felt,
}

/// A receipt as it is sent to peers.
#[derive(Debug, PartialEq, Eq)]
pub enum Receipt {
    Invoke(InvokeTransactionReceipt),
    L1Handler(L1HandlerTransactionReceipt),
    Declare(DeclareTransactionReceipt),
    Deploy(DeployTransactionReceipt),
    DeployAccount(DeployAccountTransactionReceipt),
}

impl Receipt {
    /// The part common to every kind of receipt.
    pub open spec fn common(self) -> ReceiptCommon {
        match self {
            Receipt::Invoke(r) => r.common,
            Receipt::L1Handler(r) => r.common,
            Receipt::Declare(r) => r.common,
            Receipt::Deploy(r) => r.common,
            Receipt::DeployAccount(r) => r.common,
        }
    }
}

/// An event as it is sent to peers.
#[derive(Debug, PartialEq, Eq)]
pub struct Event {
    pub transaction_hash: Hash,
    pub from_address: Felt,
    pub keys: Vec<Felt>,
    pub data: Vec<Felt>,
}

} // verus!
