//! The node's own data model: block headers, state updates, transactions,
//! receipts and events, as the node stores them.

use vstd::prelude::*;

use crate::felt::Felt;

verus! {

pub type BlockHash = Felt;

pub type SequencerAddress = Felt;

pub type StateCommitment = Felt;

pub type ContractAddress = Felt;

pub type StorageAddress = Felt;

pub type StorageValue = Felt;

pub type ClassHash = Felt;

pub type CasmHash = Felt;

pub type ContractNonce = Felt;

pub type TransactionNonce = Felt;

pub type TransactionHash = Felt;

pub type TransactionVersion = Felt;

pub type TransactionSignatureElem = Felt;

pub type ContractAddressSalt = Felt;

pub type EntryPoint = Felt;

pub type CallParam = Felt;

pub type ConstructorParam = Felt;

pub type PaymasterDataElem = Felt;

pub type AccountDeploymentDataElem = Felt;

pub type Fee = Felt;

pub type EventKey = Felt;

pub type EventData = Felt;

pub type L2ToL1MessagePayloadElem = Felt;

/// A 20-byte Ethereum address.
pub type H160 = [u8; 20];

/// The header of a block.
#[derive(Debug)]
pub struct BlockHeader {
    pub hash: BlockHash,
    pub parent_hash: BlockHash,
    /// The block's height.
    pub number: u64,
    /// Seconds since the Unix epoch.
    pub timestamp: u64,
    /// The L1 gas price in wei.
    pub eth_l1_gas_price: u128,
    pub sequencer_address: SequencerAddress,
    pub state_commitment: StateCommitment,
    pub starknet_version: String,
}

/// The storage writes of one contract: each pair is a storage address and the
/// value written there. As a map, no address occurs twice.
pub type StorageUpdates = Vec<(StorageAddress, StorageValue)>;

/// No key of `entries` occurs twice.
pub open spec fn keys_distinct<V>(entries: Seq<(Felt, V)>) -> bool {
    forall|i: int, j: int|
        0 <= i < entries.len() && 0 <= j < entries.len() && i != j ==> #[trigger] entries[i].0
            != #[trigger] entries[j].0
}

/// How a contract's class changed in a block.
#[derive(Clone, Copy, Debug, PartialEq, Eq, Structural)]
pub enum ContractClassUpdate {
    Deploy(ClassHash),
    Replace(ClassHash),
}

impl ContractClassUpdate {
    /// The class hash that the contract has after the update.
    pub open spec fn spec_class_hash(self) -> ClassHash {
        match self {
            ContractClassUpdate::Deploy(h) => h,
            ContractClassUpdate::Replace(h) => h,
        }
    }

    /// The class hash that the contract has after the update.
    pub fn class_hash(&self) -> (r: ClassHash)
        ensures
            r == self.spec_class_hash(),
            self matches ContractClassUpdate::Deploy(h) ==> r == h,
            self matches ContractClassUpdate::Replace(h) ==> r == h,
    {
        match self {
            ContractClassUpdate::Deploy(h) => *h,
            ContractClassUpdate::Replace(h) => *h,
        }
    }
}

/// What changed in one ordinary contract.
#[derive(Debug)]
pub struct ContractUpdate {
    pub storage: StorageUpdates,
    pub class: Option<ContractClassUpdate>,
    pub nonce: Option<ContractNonce>,
}

/// What changed in one system contract (only its storage can change).
#[derive(Debug)]
pub struct SystemContractUpdate {
    pub storage: StorageUpdates,
}

/// The state changes of one block. Each list is a map keyed by the contract's
/// address.
#[derive(Debug)]
pub struct StateUpdate {
    pub contract_updates: Vec<(ContractAddress, ContractUpdate)>,
    pub system_contract_updates: Vec<(ContractAddress, SystemContractUpdate)>,
}

impl StateUpdate {
    /// Every list that stands for a map has no key twice.
    pub open spec fn wf(&self) -> bool {
        &&& keys_distinct(self.contract_updates@)
        &&& keys_distinct(self.system_contract_updates@)
        &&& forall|i: int|
            0 <= i < self.contract_updates@.len() ==> keys_distinct(
                #[trigger] self.contract_updates@[i].1.storage@,
            )
        &&& forall|i: int|
            0 <= i < self.system_contract_updates@.len() ==> keys_distinct(
                #[trigger] self.system_contract_updates@[i].1.storage@,
            )
    }
}

/// Where a transaction's nonce or fee is accounted.
#[derive(Clone, Copy, Debug, PartialEq, Eq, Structural)]
pub enum DataAvailabilityMode {
    L1,
    L2,
}

/// A limit on one resource that a transaction may use.
#[derive(Clone, Copy, Debug, PartialEq, Eq, Structural)]
pub struct ResourceBound {
    pub max_amount: u64,
    pub max_price_per_unit: u128,
}

/// The limits on L1 and L2 gas.
#[derive(Clone, Copy, Debug, PartialEq, Eq, Structural)]
pub struct ResourceBounds {
    pub l1_gas: ResourceBound,
    pub l2_gas: ResourceBound,
}

/// A declare transaction of version 0 or 1.
#[derive(Debug)]
pub struct DeclareTransactionV0V1 {
    pub class_hash: ClassHash,
    pub max_fee: Fee,
    pub nonce: TransactionNonce,
    pub signature: Vec<TransactionSignatureElem>,
    pub sender_address: ContractAddress,
}

/// A declare transaction of version 2.
#[derive(Debug)]
pub struct DeclareTransactionV2 {
    pub class_hash: ClassHash,
    pub max_fee: Fee,
    pub nonce: TransactionNonce,
    pub signature: Vec<TransactionSignatureElem>,
    pub sender_address: ContractAddress,
    pub compiled_class_hash: CasmHash,
}

/// A declare transaction of version 3.
#[derive(Debug)]
pub struct DeclareTransactionV3 {
    pub class_hash: ClassHash,
    pub nonce: TransactionNonce,
    pub nonce_data_availability_mode: DataAvailabilityMode,
    pub fee_data_availability_mode: DataAvailabilityMode,
    pub resource_bounds: ResourceBounds,
    pub tip: u64,
    pub paymaster_data: Vec<PaymasterDataElem>,
    pub signature: Vec<TransactionSignatureElem>,
    pub account_deployment_data: Vec<AccountDeploymentDataElem>,
    pub sender_address: ContractAddress,
    pub compiled_class_hash: CasmHash,
}

/// A deploy transaction.
#[derive(Debug)]
pub struct DeployTransaction {
    pub contract_address: ContractAddress,
    pub contract_address_salt: ContractAddressSalt,
    pub class_hash: ClassHash,
    pub constructor_calldata: Vec<ConstructorParam>,
    pub version: TransactionVersion,
}

/// A deploy-account transaction of version 0 or 1.
#[derive(Debug)]
pub struct DeployAccountTransactionV0V1 {
    pub contract_address: ContractAddress,
    pub max_fee: Fee,
    pub signature: Vec<TransactionSignatureElem>,
    pub nonce: TransactionNonce,
    pub contract_address_salt: ContractAddressSalt,
    pub constructor_calldata: Vec<CallParam>,
    pub class_hash: ClassHash,
}

/// A deploy-account transaction of version 3.
#[derive(Debug)]
pub struct DeployAccountTransactionV3 {
    pub contract_address: ContractAddress,
    pub signature: Vec<TransactionSignatureElem>,
    pub nonce: TransactionNonce,
    pub nonce_data_availability_mode: DataAvailabilityMode,
    pub fee_data_availability_mode: DataAvailabilityMode,
    pub resource_bounds: ResourceBounds,
    pub tip: u64,
    pub paymaster_data: Vec<PaymasterDataElem>,
    pub contract_address_salt: ContractAddressSalt,
    pub constructor_calldata: Vec<CallParam>,
    pub class_hash: ClassHash,
}

/// An invoke transaction of version 0.
#[derive(Debug)]
pub struct InvokeTransactionV0 {
    pub calldata: Vec<CallParam>,
    pub sender_address: ContractAddress,
    pub entry_point_selector: EntryPoint,
    pub max_fee: Fee,
    pub signature: Vec<TransactionSignatureElem>,
}

/// An invoke transaction of version 1.
#[derive(Debug)]
pub struct InvokeTransactionV1 {
    pub calldata: Vec<CallParam>,
    pub sender_address: ContractAddress,
    pub max_fee: Fee,
    pub signature: Vec<TransactionSignatureElem>,
    pub nonce: TransactionNonce,
}

/// An invoke transaction of version 3.
#[derive(Debug)]
pub struct InvokeTransactionV3 {
    pub signature: Vec<TransactionSignatureElem>,
    pub nonce: TransactionNonce,
    pub nonce_data_availability_mode: DataAvailabilityMode,
    pub fee_data_availability_mode: DataAvailabilityMode,
    pub resource_bounds: ResourceBounds,
    pub tip: u64,
    pub paymaster_data: Vec<PaymasterDataElem>,
    pub account_deployment_data: Vec<AccountDeploymentDataElem>,
    pub calldata: Vec<CallParam>,
    pub sender_address: ContractAddress,
}

/// A transaction sent from L1.
#[derive(Debug)]
pub struct L1HandlerTransaction {
    pub contract_address: ContractAddress,
    pub entry_point_selector: EntryPoint,
    pub nonce: TransactionNonce,
    pub calldata: Vec<CallParam>,
}

/// The kinds and versions of transactions.
#[derive(Debug)]
pub enum TransactionVariant {
    DeclareV0(DeclareTransactionV0V1),
    DeclareV1(DeclareTransactionV0V1),
    DeclareV2(DeclareTransactionV2),
    DeclareV3(DeclareTransactionV3),
    Deploy(DeployTransaction),
    DeployAccountV0V1(DeployAccountTransactionV0V1),
    DeployAccountV3(DeployAccountTransactionV3),
    InvokeV0(InvokeTransactionV0),
    InvokeV1(InvokeTransactionV1),
    InvokeV3(InvokeTransactionV3),
    L1Handler(L1HandlerTransaction),
}

/// A transaction and its hash.
#[derive(Debug)]
pub struct Transaction {
    pub hash: TransactionHash,
    pub variant: TransactionVariant,
}

/// The number of times each builtin was used.
#[derive(Clone, Copy, Debug, PartialEq, Eq, Structural)]
pub struct BuiltinCounters {
    pub output_builtin: u64,
    pub pedersen_builtin: u64,
    pub range_check_builtin: u64,
    pub ecdsa_builtin: u64,
    pub bitwise_builtin: u64,
    pub ec_op_builtin: u64,
    pub keccak_builtin: u64,
    pub poseidon_builtin: u64,
    pub segment_arena_builtin: u64,
}

/// The resources that executing a transaction used.
#[derive(Clone, Copy, Debug, PartialEq, Eq, Structural)]
pub struct ExecutionResources {
    pub builtin_instance_counter: BuiltinCounters,
    pub n_steps: u64,
    pub n_memory_holes: u64,
}

/// An Ethereum address.
#[derive(Clone, Copy, Debug, PartialEq, Eq)]
pub struct EthereumAddress(pub H160);

/// A message sent from L2 to L1.
#[derive(Debug)]
pub struct L2ToL1Message {
    pub from_address: ContractAddress,
    pub payload: Vec<L2ToL1MessagePayloadElem>,
    pub to_address: EthereumAddress,
}

/// Whether a transaction's execution succeeded.
#[derive(Debug)]
pub enum ExecutionStatus {
    Succeeded,
    Reverted { reason: String },
}

/// The receipt of a transaction.
#[derive(Debug)]
pub struct Receipt {
    pub actual_fee: Option<Fee>,
    pub execution_resources: Option<ExecutionResources>,
    pub l2_to_l1_messages: Vec<L2ToL1Message>,
    pub execution_status: ExecutionStatus,
    pub transaction_hash: TransactionHash,
    pub transaction_index: u64,
}

impl Receipt {
    /// The reason of a reverted execution.
    pub fn revert_reason(&self) -> (r: Option<String>)
        ensures
            match self.execution_status {
                ExecutionStatus::Succeeded => r is None,
                ExecutionStatus::Reverted { reason } => r is Some && r->0@ == reason@,
            },
    {
        match &self.execution_status {
            ExecutionStatus::Succeeded => None,
            ExecutionStatus::Reverted { reason } => Some(reason.clone()),
        }
    }
}

/// An event emitted by a contract.
#[derive(Debug)]
pub struct Event {
    pub data: Vec<EventData>,
    pub from_address: ContractAddress,
    pub keys: Vec<EventKey>,
}

} // verus!
