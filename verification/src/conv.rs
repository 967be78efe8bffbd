//! Conversion of the node's data into protocol messages.

use vstd::prelude::*;

use crate::common::{self, DataAvailabilityMode, ResourceBound, TransactionVariant};
use crate::felt::{felt_of_u128, felt_of_u64, felt_zero, Felt};
use crate::fields::{
    msg_account, msg_account_deployment_data, msg_calldata, msg_class_hash,
    msg_compiled_class_hash, msg_entry_point, msg_max_fee, msg_nonce, msg_salt, msg_signature,
    msg_v3_fees, receipt_contract_address, tx_account, tx_account_deployment_data, tx_calldata,
    tx_class_hash, tx_compiled_class_hash, tx_deployed_address, tx_entry_point, tx_max_fee,
    tx_nonce, tx_salt, tx_signature, tx_v3_fees,
};
use crate::proto::{self, Address};

verus! {

/// Conversion of a value into the protocol message `T` that carries it.
pub trait ToProto<T>: Sized {
    /// The values on which the conversion is defined.
    spec fn proto_defined(&self) -> bool;

    /// The message that carries this value.
    fn to_proto(self) -> (r: T)
        requires
            self.proto_defined(),
    ;
}

// ---------------------------------------------------------------------------
// Small values.

/// The name by which a data-availability mode is sent.
pub open spec fn da_mode_name(m: DataAvailabilityMode) -> Seq<char> {
    match m {
        DataAvailabilityMode::L1 => "L1"@,
        DataAvailabilityMode::L2 => "L2"@,
    }
}

impl ToProto<String> for DataAvailabilityMode {
    open spec fn proto_defined(&self) -> bool {
        true
    }

    fn to_proto(self) -> (r: String)
        ensures
            r@ == da_mode_name(self),
            self == DataAvailabilityMode::L1 ==> r@ == "L1"@,
            self == DataAvailabilityMode::L2 ==> r@ == "L2"@,
    {
        match self {
            DataAvailabilityMode::L1 => "L1".to_owned(),
            DataAvailabilityMode::L2 => "L2".to_owned(),
        }
    }
}

/// The message that carries a resource bound: both numbers as field elements.
pub open spec fn limits_of(b: ResourceBound) -> proto::ResourceLimits {
    proto::ResourceLimits {
        max_amount: felt_of_u64(b.max_amount),
        max_price_per_unit: felt_of_u128(b.max_price_per_unit),
    }
}

impl ToProto<proto::ResourceLimits> for ResourceBound {
    open spec fn proto_defined(&self) -> bool {
        true
    }

    fn to_proto(self) -> (r: proto::ResourceLimits)
        ensures
            r == limits_of(self),
            r.max_amount.value() == self.max_amount,
            r.max_price_per_unit.value() == self.max_price_per_unit,
    {
        proto::ResourceLimits {
            max_amount: Felt::from(self.max_amount),
            max_price_per_unit: Felt::from(self.max_price_per_unit),
        }
    }
}

/// The message that carries the L1 and L2 gas bounds.
pub open spec fn bounds_of(b: common::ResourceBounds) -> proto::ResourceBounds {
    proto::ResourceBounds { l1_gas: limits_of(b.l1_gas), l2_gas: limits_of(b.l2_gas) }
}

fn resource_bounds_to_proto(b: common::ResourceBounds) -> (r: proto::ResourceBounds)
    ensures
        r == bounds_of(b),
{
    proto::ResourceBounds { l1_gas: b.l1_gas.to_proto(), l2_gas: b.l2_gas.to_proto() }
}

/// The first element of `s`, or zero where `s` is empty.
pub open spec fn first_or_zero(s: Seq<Felt>) -> Felt {
    if s.len() > 0 {
        s[0]
    } else {
        felt_zero()
    }
}

fn first_felt_or_zero(v: &Vec<Felt>) -> (r: Felt)
    ensures
        r == first_or_zero(v@),
{
    if v.len() > 0 {
        v[0]
    } else {
        Felt::zero()
    }
}

// ---------------------------------------------------------------------------
// Block headers.

/// The 16 bytes of `v`, most significant first.
pub open spec fn be_bytes_u128(v: u128) -> Seq<u8> {
    Seq::new(16, |i: int| (v >> ((120 - 8 * i) as u32)) as u8)
}

/// The number whose big-endian bytes are `s`.
pub open spec fn be_value(s: Seq<u8>) -> nat
    decreases s.len(),
{
    if s.len() == 0 {
        0
    } else {
        (be_value(s.drop_last()) * 256 + s.last()) as nat
    }
}

/// The big-endian encoding of a 128-bit integer.
pub fn u128_to_be_bytes(v: u128) -> (r: Vec<u8>)
    ensures
        r@ == be_bytes_u128(v),
        r@.len() == 16,
        be_value(r@) == v,
{
    let mut r: Vec<u8> = Vec::new();
    let mut i: u32 = 0;
    while i < 16
        invariant
            i <= 16,
            r@.len() == i,
            forall|j: int| 0 <= j < i ==> r@[j] == be_bytes_u128(v)[j],
        decreases 16 - i,
    {
        let shift: u32 = 120 - 8 * i;
        r.push((v >> shift) as u8);
        i = i + 1;
    }
    assert(r@ =~= be_bytes_u128(v));
    proof {
        crate::laws::lemma_gas_price_bytes_decode(v);
    }
    r
}

/// A Merkle tree with no leaves and a zero root.
pub open spec fn zero_merkle() -> proto::Merkle {
    proto::Merkle { n_leaves: 0, root: proto::Hash(felt_zero()) }
}

/// A Patricia tree of height zero with a zero root.
pub open spec fn zero_patricia() -> proto::Patricia {
    proto::Patricia { height: 0, root: proto::Hash(felt_zero()) }
}

impl ToProto<proto::BlockHeader> for common::BlockHeader {
    /// The header's time must be one that the system clock can represent
    /// (seconds that fit in a signed 64-bit integer).
    open spec fn proto_defined(&self) -> bool {
        self.timestamp <= i64::MAX
    }

    fn to_proto(self) -> (r: proto::BlockHeader)
        ensures
            r.parent_hash == proto::Hash(self.parent_hash),
            r.number == self.number,
            r.time == self.timestamp,
            r.sequencer_address == Address(self.sequencer_address),
            r.state_diffs == zero_merkle(),
            r.state == zero_patricia(),
            r.proof_fact == proto::Hash(felt_zero()),
            r.transactions == zero_merkle(),
            r.events == zero_merkle(),
            r.receipts == zero_merkle(),
            r.hash == proto::Hash(self.hash),
            r.gas_price@ == be_bytes_u128(self.eth_l1_gas_price),
            r.gas_price@.len() == 16,
            be_value(r.gas_price@) == self.eth_l1_gas_price,
            r.state_diffs.n_leaves == 0 && r.state_diffs.root.0.value() == 0,
            r.state.height == 0 && r.state.root.0.value() == 0,
            r.proof_fact.0.value() == 0,
            r.transactions.n_leaves == 0 && r.transactions.root.0.value() == 0,
            r.events.n_leaves == 0 && r.events.root.0.value() == 0,
            r.receipts.n_leaves == 0 && r.receipts.root.0.value() == 0,
            self.state_commitment.value() == 0 ==> r.state_commitment is None,
            self.state_commitment.value() != 0 ==> r.state_commitment == Some(
                proto::Hash(self.state_commitment),
            ),
            r.starknet_version@ == self.starknet_version@,
            r.state_commitment == (if self.state_commitment.value() != 0 {
                Some(proto::Hash(self.state_commitment))
            } else {
                None
            }),
    {
        let zero_merkle = proto::Merkle { n_leaves: 0, root: proto::Hash(Felt::zero()) };
        let zero_patricia = proto::Patricia { height: 0, root: proto::Hash(Felt::zero()) };
        let state_commitment = if self.state_commitment.is_zero() {
            None
        } else {
            Some(proto::Hash(self.state_commitment))
        };
        proto::BlockHeader {
            parent_hash: proto::Hash(self.parent_hash),
            number: self.number,
            time: self.timestamp,
            sequencer_address: Address(self.sequencer_address),
            state_diffs: zero_merkle,
            state: zero_patricia,
            proof_fact: proto::Hash(Felt::zero()),
            transactions: zero_merkle,
            events: zero_merkle,
            receipts: zero_merkle,
            hash: proto::Hash(self.hash),
            gas_price: u128_to_be_bytes(self.eth_l1_gas_price),
            starknet_version: self.starknet_version,
            state_commitment,
        }
    }
}

// ---------------------------------------------------------------------------
// State updates.

/// The message that carries one storage write.
pub open spec fn stored_value(w: (Felt, Felt)) -> proto::ContractStoredValue {
    proto::ContractStoredValue { key: w.0, value: w.1 }
}

/// The messages that carry a contract's storage writes, in the same order.
pub open spec fn stored_values(s: Seq<(Felt, Felt)>) -> Seq<proto::ContractStoredValue> {
    s.map_values(|w: (Felt, Felt)| stored_value(w))
}

fn storage_to_proto(storage: &Vec<(Felt, Felt)>) -> (r: Vec<proto::ContractStoredValue>)
    ensures
        r@ == stored_values(storage@),
        r@.len() == storage@.len(),
        forall|i: int|
            0 <= i < storage@.len() ==> #[trigger] r@[i].key == storage@[i].0 && r@[i].value
                == storage@[i].1,
{
    let mut r: Vec<proto::ContractStoredValue> = Vec::new();
    let mut i: usize = 0;
    while i < storage.len()
        invariant
            i <= storage@.len(),
            r@ =~= stored_values(storage@.take(i as int)),
        decreases storage@.len() - i,
    {
        let w = storage[i];
        r.push(proto::ContractStoredValue { key: w.0, value: w.1 });
        assert(storage@.take(i + 1) =~= storage@.take(i as int).push(w));
        i = i + 1;
    }
    assert(storage@.take(i as int) =~= storage@);
    r
}

/// `d` is the message for the system contract at `address` with update `u`:
/// it carries the storage writes, and neither nonce nor class.
pub open spec fn is_system_contract_diff(
    address: Felt,
    u: common::SystemContractUpdate,
    d: proto::ContractDiff,
) -> bool {
    &&& d.address == Address(address)
    &&& d.nonce is None
    &&& d.class_hash is None
    &&& d.values@ == stored_values(u.storage@)
}

/// The class hash that a contract update sets, if it sets one.
pub open spec fn class_hash_of(class: Option<common::ContractClassUpdate>) -> Option<Felt> {
    match class {
        Some(c) => Some(c.spec_class_hash()),
        None => None,
    }
}

/// `d` is the message for the contract at `address` with update `u`.
pub open spec fn is_contract_diff(
    address: Felt,
    u: common::ContractUpdate,
    d: proto::ContractDiff,
) -> bool {
    &&& d.address == Address(address)
    &&& d.nonce == u.nonce
    &&& d.class_hash == class_hash_of(u.class)
    &&& d.values@ == stored_values(u.storage@)
}

/// `p` carries `s`: domain zero, the system contracts' diffs in their order,
/// then the other contracts' diffs in their order.
pub open spec fn is_state_diff_of(s: common::StateUpdate, p: proto::StateDiff) -> bool {
    let sys = s.system_contract_updates@;
    let cus = s.contract_updates@;
    &&& p.domain == 0
    &&& p.contract_diffs@.len() == sys.len() + cus.len()
    &&& forall|i: int|
        0 <= i < sys.len() ==> is_system_contract_diff(
            sys[i].0,
            sys[i].1,
            #[trigger] p.contract_diffs@[i],
        )
    &&& forall|j: int|
        0 <= j < cus.len() ==> is_contract_diff(
            cus[j].0,
            cus[j].1,
            #[trigger] p.contract_diffs@[sys.len() + j],
        )
}

impl ToProto<proto::StateDiff> for common::StateUpdate {
    open spec fn proto_defined(&self) -> bool {
        true
    }

    fn to_proto(self) -> (r: proto::StateDiff)
        ensures
            is_state_diff_of(self, r),
            r.domain == 0,
            r.contract_diffs@.len() == self.system_contract_updates@.len() + self.contract_updates@.len(),
            forall|i: int|
                0 <= i < self.system_contract_updates@.len() ==> {
                    let d = #[trigger] r.contract_diffs@[i];
                    let u = self.system_contract_updates@[i];
                    &&& d.address.0 == u.0
                    &&& d.nonce is None
                    &&& d.class_hash is None
                    &&& d.values@.len() == u.1.storage@.len()
                    &&& forall|k: int|
                        0 <= k < u.1.storage@.len() ==> #[trigger] d.values@[k].key == u.1.storage@[k].0
                            && d.values@[k].value == u.1.storage@[k].1
                },
            forall|j: int|
                0 <= j < self.contract_updates@.len() ==> {
                    let d = #[trigger] r.contract_diffs@[self.system_contract_updates@.len() + j];
                    let u = self.contract_updates@[j];
                    &&& d.address.0 == u.0
                    &&& d.nonce == u.1.nonce
                    &&& (u.1.class matches Some(common::ContractClassUpdate::Deploy(h)) ==> d.class_hash
                        == Some(h))
                    &&& (u.1.class matches Some(common::ContractClassUpdate::Replace(h))
                        ==> d.class_hash == Some(h))
                    &&& (u.1.class is None ==> d.class_hash is None)
                    &&& d.values@.len() == u.1.storage@.len()
                    &&& forall|k: int|
                        0 <= k < u.1.storage@.len() ==> #[trigger] d.values@[k].key == u.1.storage@[k].0
                            && d.values@[k].value == u.1.storage@[k].1
                },
    {
        let sys = &self.system_contract_updates;
        let cus = &self.contract_updates;
        let mut diffs: Vec<proto::ContractDiff> = Vec::new();
        let mut i: usize = 0;
        while i < sys.len()
            invariant
                i <= sys@.len(),
                diffs@.len() == i,
                forall|k: int|
                    0 <= k < i ==> is_system_contract_diff(sys@[k].0, sys@[k].1, #[trigger] diffs@[k]),
            decreases sys@.len() - i,
        {
            let entry = &sys[i];
            let d = proto::ContractDiff {
                address: Address(entry.0),
                nonce: None,
                class_hash: None,
                values: storage_to_proto(&entry.1.storage),
            };
            diffs.push(d);
            i = i + 1;
        }
        let n = sys.len();
        let mut j: usize = 0;
        while j < cus.len()
            invariant
                n == sys@.len(),
                j <= cus@.len(),
                diffs@.len() == n + j,
                forall|k: int|
                    0 <= k < n ==> is_system_contract_diff(sys@[k].0, sys@[k].1, #[trigger] diffs@[k]),
                forall|k: int|
                    0 <= k < j ==> is_contract_diff(cus@[k].0, cus@[k].1, #[trigger] diffs@[n + k]),
            decreases cus@.len() - j,
        {
            let entry = &cus[j];
            let class_hash = match &entry.1.class {
                Some(c) => Some(c.class_hash()),
                None => None,
            };
            let d = proto::ContractDiff {
                address: Address(entry.0),
                nonce: entry.1.nonce,
                class_hash,
                values: storage_to_proto(&entry.1.storage),
            };
            diffs.push(d);
            j = j + 1;
        }
        proto::StateDiff { domain: 0, contract_diffs: diffs }
    }
}

// ---------------------------------------------------------------------------
// Transactions.

/// The signature message carrying `parts` has exactly these parts.
pub open spec fn signs(sig: proto::AccountSignature, parts: Seq<Felt>) -> bool {
    sig.parts@ == parts
}

/// `p` is the message that carries the transaction `v`. Each kind and version
/// maps to one message variant; every field is copied, paymaster and account
/// deployment data are cut down to their first element (zero when empty), and
/// a deploy transaction's version is sent as 0 when it is zero and as 1
/// otherwise.
pub open spec fn is_transaction_of(v: TransactionVariant, p: proto::Transaction) -> bool {
    match v {
        TransactionVariant::DeclareV0(x) => {
            &&& p matches proto::Transaction::DeclareV0(d)
            &&& d.sender == Address(x.sender_address)
            &&& d.max_fee == x.max_fee
            &&& signs(d.signature, x.signature@)
            &&& d.class_hash == proto::Hash(x.class_hash)
        },
        TransactionVariant::DeclareV1(x) => {
            &&& p matches proto::Transaction::DeclareV1(d)
            &&& d.sender == Address(x.sender_address)
            &&& d.max_fee == x.max_fee
            &&& signs(d.signature, x.signature@)
            &&& d.class_hash == proto::Hash(x.class_hash)
            &&& d.nonce == x.nonce
        },
        TransactionVariant::DeclareV2(x) => {
            &&& p matches proto::Transaction::DeclareV2(d)
            &&& d.sender == Address(x.sender_address)
            &&& d.max_fee == x.max_fee
            &&& signs(d.signature, x.signature@)
            &&& d.class_hash == proto::Hash(x.class_hash)
            &&& d.nonce == x.nonce
            &&& d.compiled_class_hash == x.compiled_class_hash
        },
        TransactionVariant::DeclareV3(x) => {
            &&& p matches proto::Transaction::DeclareV3(d)
            &&& d.sender == Address(x.sender_address)
            &&& signs(d.signature, x.signature@)
            &&& d.class_hash == proto::Hash(x.class_hash)
            &&& d.nonce == x.nonce
            &&& d.compiled_class_hash == x.compiled_class_hash
            &&& d.resource_bounds == bounds_of(x.resource_bounds)
            &&& d.tip == felt_of_u64(x.tip)
            &&& d.paymaster_data == Address(first_or_zero(x.paymaster_data@))
            &&& d.account_deployment_data == Address(first_or_zero(x.account_deployment_data@))
            &&& d.nonce_domain@ == da_mode_name(x.nonce_data_availability_mode)
            &&& d.fee_domain@ == da_mode_name(x.fee_data_availability_mode)
        },
        TransactionVariant::Deploy(x) => {
            &&& p matches proto::Transaction::Deploy(d)
            &&& d.class_hash == proto::Hash(x.class_hash)
            &&& d.address_salt == x.contract_address_salt
            &&& d.calldata@ == x.constructor_calldata@
            &&& d.address == Address(x.contract_address)
            &&& d.version == (if x.version.value() == 0 {
                0u32
            } else {
                1u32
            })
        },
        TransactionVariant::DeployAccountV0V1(x) => {
            &&& p matches proto::Transaction::DeployAccountV1(d)
            &&& d.max_fee == x.max_fee
            &&& signs(d.signature, x.signature@)
            &&& d.class_hash == proto::Hash(x.class_hash)
            &&& d.nonce == x.nonce
            &&& d.address_salt == x.contract_address_salt
            &&& d.constructor_calldata@ == x.constructor_calldata@
        },
        TransactionVariant::DeployAccountV3(x) => {
            &&& p matches proto::Transaction::DeployAccountV3(d)
            &&& signs(d.signature, x.signature@)
            &&& d.class_hash == proto::Hash(x.class_hash)
            &&& d.nonce == x.nonce
            &&& d.address_salt == x.contract_address_salt
            &&& d.calldata@ == x.constructor_calldata@
            &&& d.resource_bounds == bounds_of(x.resource_bounds)
            &&& d.tip == felt_of_u64(x.tip)
            &&& d.paymaster_data == Address(first_or_zero(x.paymaster_data@))
            &&& d.nonce_domain@ == da_mode_name(x.nonce_data_availability_mode)
            &&& d.fee_domain@ == da_mode_name(x.fee_data_availability_mode)
        },
        TransactionVariant::InvokeV0(x) => {
            &&& p matches proto::Transaction::InvokeV0(d)
            &&& d.max_fee == x.max_fee
            &&& signs(d.signature, x.signature@)
            &&& d.address == Address(x.sender_address)
            &&& d.entry_point_selector == x.entry_point_selector
            &&& d.calldata@ == x.calldata@
        },
        TransactionVariant::InvokeV1(x) => {
            &&& p matches proto::Transaction::InvokeV1(d)
            &&& d.sender == Address(x.sender_address)
            &&& d.max_fee == x.max_fee
            &&& signs(d.signature, x.signature@)
            &&& d.nonce == x.nonce
            &&& d.calldata@ == x.calldata@
        },
        TransactionVariant::InvokeV3(x) => {
            &&& p matches proto::Transaction::InvokeV3(d)
            &&& d.sender == Address(x.sender_address)
            &&& signs(d.signature, x.signature@)
            &&& d.calldata@ == x.calldata@
            &&& d.resource_bounds == bounds_of(x.resource_bounds)
            &&& d.tip == felt_of_u64(x.tip)
            &&& d.paymaster_data == Address(first_or_zero(x.paymaster_data@))
            &&& d.account_deployment_data == Address(first_or_zero(x.account_deployment_data@))
            &&& d.nonce_domain@ == da_mode_name(x.nonce_data_availability_mode)
            &&& d.fee_domain@ == da_mode_name(x.fee_data_availability_mode)
            &&& d.nonce == x.nonce
        },
        TransactionVariant::L1Handler(x) => {
            &&& p matches proto::Transaction::L1HandlerV0(d)
            &&& d.nonce == x.nonce
            &&& d.address == Address(x.contract_address)
            &&& d.entry_point_selector == x.entry_point_selector
            &&& d.calldata@ == x.calldata@
        },
    }
}

impl ToProto<proto::Transaction> for common::Transaction {
    open spec fn proto_defined(&self) -> bool {
        true
    }

    fn to_proto(self) -> (r: proto::Transaction)
        ensures
            is_transaction_of(self.variant, r),
        (r is DeclareV0) == (self.variant is DeclareV0),
        (r is DeclareV1) == (self.variant is DeclareV1),
        (r is DeclareV2) == (self.variant is DeclareV2),
        (r is DeclareV3) == (self.variant is DeclareV3),
        (r is Deploy) == (self.variant is Deploy),
        (r is DeployAccountV1) == (self.variant is DeployAccountV0V1),
        (r is DeployAccountV3) == (self.variant is DeployAccountV3),
        (r is InvokeV0) == (self.variant is InvokeV0),
        (r is InvokeV1) == (self.variant is InvokeV1),
        (r is InvokeV3) == (self.variant is InvokeV3),
        (r is L1HandlerV0) == (self.variant is L1Handler),
        msg_signature(r) == tx_signature(self.variant),
        msg_calldata(r) == tx_calldata(self.variant),
        msg_nonce(r) == (if self.variant is DeclareV0 {
            None
        } else {
            tx_nonce(self.variant)
        }),
        msg_max_fee(r) == tx_max_fee(self.variant),
        msg_class_hash(r) == tx_class_hash(self.variant),
        msg_compiled_class_hash(r) == tx_compiled_class_hash(self.variant),
        msg_account(r) == tx_account(self.variant),
        msg_entry_point(r) == tx_entry_point(self.variant),
        msg_salt(r) == tx_salt(self.variant),
        (msg_v3_fees(r) is Some) == (tx_v3_fees(self.variant) is Some),
        tx_v3_fees(self.variant) matches Some(t) ==> msg_v3_fees(r) matches Some(m) && {
            &&& m.0.l1_gas.max_amount.value() == t.0.l1_gas.max_amount
            &&& m.0.l1_gas.max_price_per_unit.value() == t.0.l1_gas.max_price_per_unit
            &&& m.0.l2_gas.max_amount.value() == t.0.l2_gas.max_amount
            &&& m.0.l2_gas.max_price_per_unit.value() == t.0.l2_gas.max_price_per_unit
            &&& m.1.value() == t.1
            &&& (t.2.len() > 0 ==> m.2 == t.2[0])
            &&& (t.2.len() == 0 ==> m.2.value() == 0)
            &&& (t.3 == DataAvailabilityMode::L1 ==> m.3 == "L1"@)
            &&& (t.3 == DataAvailabilityMode::L2 ==> m.3 == "L2"@)
            &&& (t.4 == DataAvailabilityMode::L1 ==> m.4 == "L1"@)
            &&& (t.4 == DataAvailabilityMode::L2 ==> m.4 == "L2"@)
        },
        (msg_account_deployment_data(r) is Some) == (tx_account_deployment_data(self.variant) is Some),
        tx_account_deployment_data(self.variant) matches Some(a) ==> msg_account_deployment_data(r)
            matches Some(m) && (a.len() > 0 ==> m == a[0]) && (a.len() == 0 ==> m.value() == 0),
        self.variant matches TransactionVariant::Deploy(x) ==> r matches proto::Transaction::Deploy(d) && (
        d.version == 0) == (x.version.value() == 0) && d.version <= 1,
    {
        match self.variant {
            TransactionVariant::DeclareV0(x) => proto::Transaction::DeclareV0(
                proto::DeclareV0 {
                    sender: Address(x.sender_address),
                    max_fee: x.max_fee,
                    signature: proto::AccountSignature { parts: x.signature },
                    class_hash: proto::Hash(x.class_hash),
                },
            ),
            TransactionVariant::DeclareV1(x) => proto::Transaction::DeclareV1(
                proto::DeclareV1 {
                    sender: Address(x.sender_address),
                    max_fee: x.max_fee,
                    signature: proto::AccountSignature { parts: x.signature },
                    class_hash: proto::Hash(x.class_hash),
                    nonce: x.nonce,
                },
            ),
            TransactionVariant::DeclareV2(x) => proto::Transaction::DeclareV2(
                proto::DeclareV2 {
                    sender: Address(x.sender_address),
                    max_fee: x.max_fee,
                    signature: proto::AccountSignature { parts: x.signature },
                    class_hash: proto::Hash(x.class_hash),
                    nonce: x.nonce,
                    compiled_class_hash: x.compiled_class_hash,
                },
            ),
            TransactionVariant::DeclareV3(x) => {
                let paymaster_data = Address(first_felt_or_zero(&x.paymaster_data));
                let account_deployment_data = Address(
                    first_felt_or_zero(&x.account_deployment_data),
                );
                proto::Transaction::DeclareV3(
                    proto::DeclareV3 {
                        sender: Address(x.sender_address),
                        signature: proto::AccountSignature { parts: x.signature },
                        class_hash: proto::Hash(x.class_hash),
                        nonce: x.nonce,
                        compiled_class_hash: x.compiled_class_hash,
                        resource_bounds: resource_bounds_to_proto(x.resource_bounds),
                        tip: Felt::from(x.tip),
                        paymaster_data,
                        account_deployment_data,
                        nonce_domain: x.nonce_data_availability_mode.to_proto(),
                        fee_domain: x.fee_data_availability_mode.to_proto(),
                    },
                )
            },
            TransactionVariant::Deploy(x) => proto::Transaction::Deploy(
                proto::Deploy {
                    class_hash: proto::Hash(x.class_hash),
                    address_salt: x.contract_address_salt,
                    calldata: x.constructor_calldata,
                    address: Address(x.contract_address),
                    version: if x.version.is_zero() {
                        0
                    } else {
                        1
                    },
                },
            ),
            TransactionVariant::DeployAccountV0V1(x) => proto::Transaction::DeployAccountV1(
                proto::DeployAccountV1 {
                    max_fee: x.max_fee,
                    signature: proto::AccountSignature { parts: x.signature },
                    class_hash: proto::Hash(x.class_hash),
                    nonce: x.nonce,
                    address_salt: x.contract_address_salt,
                    constructor_calldata: x.constructor_calldata,
                },
            ),
            TransactionVariant::DeployAccountV3(x) => {
                let paymaster_data = Address(first_felt_or_zero(&x.paymaster_data));
                proto::Transaction::DeployAccountV3(
                    proto::DeployAccountV3 {
                        signature: proto::AccountSignature { parts: x.signature },
                        class_hash: proto::Hash(x.class_hash),
                        nonce: x.nonce,
                        address_salt: x.contract_address_salt,
                        calldata: x.constructor_calldata,
                        resource_bounds: resource_bounds_to_proto(x.resource_bounds),
                        tip: Felt::from(x.tip),
                        paymaster_data,
                        nonce_domain: x.nonce_data_availability_mode.to_proto(),
                        fee_domain: x.fee_data_availability_mode.to_proto(),
                    },
                )
            },
            TransactionVariant::InvokeV0(x) => proto::Transaction::InvokeV0(
                proto::InvokeV0 {
                    max_fee: x.max_fee,
                    signature: proto::AccountSignature { parts: x.signature },
                    address: Address(x.sender_address),
                    entry_point_selector: x.entry_point_selector,
                    calldata: x.calldata,
                },
            ),
            TransactionVariant::InvokeV1(x) => proto::Transaction::InvokeV1(
                proto::InvokeV1 {
                    sender: Address(x.sender_address),
                    max_fee: x.max_fee,
                    signature: proto::AccountSignature { parts: x.signature },
                    nonce: x.nonce,
                    calldata: x.calldata,
                },
            ),
            TransactionVariant::InvokeV3(x) => {
                let paymaster_data = Address(first_felt_or_zero(&x.paymaster_data));
                let account_deployment_data = Address(
                    first_felt_or_zero(&x.account_deployment_data),
                );
                proto::Transaction::InvokeV3(
                    proto::InvokeV3 {
                        sender: Address(x.sender_address),
                        signature: proto::AccountSignature { parts: x.signature },
                        calldata: x.calldata,
                        resource_bounds: resource_bounds_to_proto(x.resource_bounds),
                        tip: Felt::from(x.tip),
                        paymaster_data,
                        account_deployment_data,
                        nonce_domain: x.nonce_data_availability_mode.to_proto(),
                        fee_domain: x.fee_data_availability_mode.to_proto(),
                        nonce: x.nonce,
                    },
                )
            },
            TransactionVariant::L1Handler(x) => proto::Transaction::L1HandlerV0(
                proto::L1HandlerV0 {
                    nonce: x.nonce,
                    address: Address(x.contract_address),
                    entry_point_selector: x.entry_point_selector,
                    calldata: x.calldata,
                },
            ),
        }
    }
}

// ---------------------------------------------------------------------------
// Receipts.

/// Every resource count fits in 32 bits, as the receipt message needs.
pub open spec fn resources_fit(e: common::ExecutionResources) -> bool {
    let b = e.builtin_instance_counter;
    &&& b.output_builtin <= u32::MAX
    &&& b.pedersen_builtin <= u32::MAX
    &&& b.range_check_builtin <= u32::MAX
    &&& b.ecdsa_builtin <= u32::MAX
    &&& b.bitwise_builtin <= u32::MAX
    &&& b.ec_op_builtin <= u32::MAX
    &&& b.keccak_builtin <= u32::MAX
    &&& b.poseidon_builtin <= u32::MAX
    &&& b.segment_arena_builtin <= u32::MAX
    &&& e.n_steps <= u32::MAX
    &&& e.n_memory_holes <= u32::MAX
}

/// The resources that a receipt reports; all zero where it reports none.
pub open spec fn reported_resources(r: common::Receipt) -> common::ExecutionResources {
    match r.execution_resources {
        Some(e) => e,
        None => common::ExecutionResources {
            builtin_instance_counter: common::BuiltinCounters {
                output_builtin: 0,
                pedersen_builtin: 0,
                range_check_builtin: 0,
                ecdsa_builtin: 0,
                bitwise_builtin: 0,
                ec_op_builtin: 0,
                keccak_builtin: 0,
                poseidon_builtin: 0,
                segment_arena_builtin: 0,
            },
            n_steps: 0,
            n_memory_holes: 0,
        },
    }
}

/// The message that carries the resources `e`, each count unchanged.
pub open spec fn resources_of(e: common::ExecutionResources) -> proto::ExecutionResources {
    let b = e.builtin_instance_counter;
    proto::ExecutionResources {
        builtins: proto::BuiltinCounter {
            bitwise: b.bitwise_builtin as u32,
            ecdsa: b.ecdsa_builtin as u32,
            ec_op: b.ec_op_builtin as u32,
            pedersen: b.pedersen_builtin as u32,
            range_check: b.range_check_builtin as u32,
            poseidon: b.poseidon_builtin as u32,
            keccak: b.keccak_builtin as u32,
            output: b.output_builtin as u32,
            segment_arena: b.segment_arena_builtin as u32,
        },
        steps: e.n_steps as u32,
        memory_holes: e.n_memory_holes as u32,
    }
}

fn resources_to_proto(e: common::ExecutionResources) -> (r: proto::ExecutionResources)
    requires
        resources_fit(e),
    ensures
        r == resources_of(e),
{
    let b = e.builtin_instance_counter;
    proto::ExecutionResources {
        builtins: proto::BuiltinCounter {
            bitwise: b.bitwise_builtin as u32,
            ecdsa: b.ecdsa_builtin as u32,
            ec_op: b.ec_op_builtin as u32,
            pedersen: b.pedersen_builtin as u32,
            range_check: b.range_check_builtin as u32,
            poseidon: b.poseidon_builtin as u32,
            keccak: b.keccak_builtin as u32,
            output: b.output_builtin as u32,
            segment_arena: b.segment_arena_builtin as u32,
        },
        steps: e.n_steps as u32,
        memory_holes: e.n_memory_holes as u32,
    }
}

/// `p` is the message for the L2-to-L1 message `m`.
pub open spec fn is_message_of(m: common::L2ToL1Message, p: proto::MessageToL1) -> bool {
    &&& p.from_address == m.from_address
    &&& p.payload@ == m.payload@
    &&& p.to_address == proto::EthereumAddress(m.to_address.0)
}

fn messages_to_proto(msgs: &Vec<common::L2ToL1Message>) -> (r: Vec<proto::MessageToL1>)
    ensures
        r@.len() == msgs@.len(),
        forall|i: int| 0 <= i < msgs@.len() ==> is_message_of(msgs@[i], #[trigger] r@[i]),
{
    let mut r: Vec<proto::MessageToL1> = Vec::new();
    let mut i: usize = 0;
    while i < msgs.len()
        invariant
            i <= msgs@.len(),
            r@.len() == i,
            forall|k: int| 0 <= k < i ==> is_message_of(msgs@[k], #[trigger] r@[k]),
        decreases msgs@.len() - i,
    {
        let m = &msgs[i];
        let payload = m.payload.clone();
        assert(payload@ =~= m.payload@);
        r.push(
            proto::MessageToL1 {
                from_address: m.from_address,
                payload,
                to_address: proto::EthereumAddress(m.to_address.0),
            },
        );
        i = i + 1;
    }
    r
}

/// The revert reason that a receipt reports: empty where execution succeeded.
pub open spec fn reported_revert_reason(r: common::Receipt) -> Seq<char> {
    match r.execution_status {
        common::ExecutionStatus::Succeeded => Seq::empty(),
        common::ExecutionStatus::Reverted { reason } => reason@,
    }
}

/// `c` carries the parts of receipt `r` that every kind of transaction shares.
pub open spec fn is_receipt_common_of(r: common::Receipt, c: proto::ReceiptCommon) -> bool {
    &&& c.transaction_hash == proto::Hash(r.transaction_hash)
    &&& c.actual_fee == (match r.actual_fee {
        Some(f) => f,
        None => felt_zero(),
    })
    &&& c.messages_sent@.len() == r.l2_to_l1_messages@.len()
    &&& forall|i: int|
        0 <= i < r.l2_to_l1_messages@.len() ==> is_message_of(
            r.l2_to_l1_messages@[i],
            #[trigger] c.messages_sent@[i],
        )
    &&& c.execution_resources == resources_of(reported_resources(r))
    &&& c.revert_reason@ == reported_revert_reason(r)
}

/// `p` is the receipt message for transaction `t` with receipt `r`: its kind
/// follows the transaction's kind, deploy receipts carry the deployed
/// address, and L1 handler receipts carry a zero message hash.
pub open spec fn is_receipt_of(
    t: TransactionVariant,
    r: common::Receipt,
    p: proto::Receipt,
) -> bool {
    &&& is_receipt_common_of(r, p.common())
    &&& match t {
        TransactionVariant::DeclareV0(_) => p is Declare,
        TransactionVariant::DeclareV1(_) => p is Declare,
        TransactionVariant::DeclareV2(_) => p is Declare,
        TransactionVariant::DeclareV3(_) => p is Declare,
        TransactionVariant::Deploy(x) => p matches proto::Receipt::Deploy(d)
            && d.contract_address == x.contract_address,
        TransactionVariant::DeployAccountV0V1(x) => p matches proto::Receipt::DeployAccount(d)
            && d.contract_address == x.contract_address,
        TransactionVariant::DeployAccountV3(x) => p matches proto::Receipt::DeployAccount(d)
            && d.contract_address == x.contract_address,
        TransactionVariant::InvokeV0(_) => p is Invoke,
        TransactionVariant::InvokeV1(_) => p is Invoke,
        TransactionVariant::InvokeV3(_) => p is Invoke,
        TransactionVariant::L1Handler(_) => p matches proto::Receipt::L1Handler(d)
            && d.msg_hash == proto::Hash(felt_zero()),
    }
}

impl ToProto<proto::Receipt> for (common::Transaction, common::Receipt) {
    /// The receipt's resource counts must fit in 32 bits.
    open spec fn proto_defined(&self) -> bool {
        resources_fit(reported_resources(self.1))
    }

    fn to_proto(self) -> (r: proto::Receipt)
        ensures
            is_receipt_of(self.0.variant, self.1, r),
        (r is Declare) == (self.0.variant is DeclareV0 || self.0.variant is DeclareV1 || self.0.variant is DeclareV2
            || self.0.variant is DeclareV3),
        (r is Deploy) == (self.0.variant is Deploy),
        (r is DeployAccount) == (self.0.variant is DeployAccountV0V1 || self.0.variant is DeployAccountV3),
        (r is Invoke) == (self.0.variant is InvokeV0 || self.0.variant is InvokeV1 || self.0.variant is InvokeV3),
        (r is L1Handler) == (self.0.variant is L1Handler),
        receipt_contract_address(r) == tx_deployed_address(self.0.variant),
        r matches proto::Receipt::L1Handler(d) ==> d.msg_hash.0.value() == 0,
        r.common().transaction_hash.0 == self.1.transaction_hash,
        self.1.actual_fee matches Some(f) ==> r.common().actual_fee == f,
        self.1.actual_fee is None ==> r.common().actual_fee.value() == 0,
        r.common().messages_sent@.len() == self.1.l2_to_l1_messages@.len(),
        forall|i: int|
            0 <= i < self.1.l2_to_l1_messages@.len() ==> {
                &&& #[trigger] r.common().messages_sent@[i].from_address
                    == self.1.l2_to_l1_messages@[i].from_address
                &&& r.common().messages_sent@[i].payload@ == self.1.l2_to_l1_messages@[i].payload@
                &&& r.common().messages_sent@[i].to_address.0 == self.1.l2_to_l1_messages@[i].to_address.0
            },
        self.1.execution_resources matches Some(e) ==> {
            let c = r.common().execution_resources;
            let b = e.builtin_instance_counter;
            &&& c.builtins.bitwise == b.bitwise_builtin
            &&& c.builtins.ecdsa == b.ecdsa_builtin
            &&& c.builtins.ec_op == b.ec_op_builtin
            &&& c.builtins.pedersen == b.pedersen_builtin
            &&& c.builtins.range_check == b.range_check_builtin
            &&& c.builtins.poseidon == b.poseidon_builtin
            &&& c.builtins.keccak == b.keccak_builtin
            &&& c.builtins.output == b.output_builtin
            &&& c.builtins.segment_arena == b.segment_arena_builtin
            &&& c.steps == e.n_steps
            &&& c.memory_holes == e.n_memory_holes
        },
        self.1.execution_resources is None ==> {
            let c = r.common().execution_resources;
            &&& c.builtins.bitwise == 0
            &&& c.builtins.ecdsa == 0
            &&& c.builtins.ec_op == 0
            &&& c.builtins.pedersen == 0
            &&& c.builtins.range_check == 0
            &&& c.builtins.poseidon == 0
            &&& c.builtins.keccak == 0
            &&& c.builtins.output == 0
            &&& c.builtins.segment_arena == 0
            &&& c.steps == 0
            &&& c.memory_holes == 0
        },
        self.1.execution_status matches common::ExecutionStatus::Reverted { reason }
            ==> r.common().revert_reason@ == reason@,
        self.1.execution_status is Succeeded ==> r.common().revert_reason@.len() == 0,
    {
        let revert_reason = match self.1.revert_reason() {
            Some(reason) => reason,
            None => String::new(),
        };
        let actual_fee = match self.1.actual_fee {
            Some(fee) => fee,
            None => Felt::zero(),
        };
        let resources = match self.1.execution_resources {
            Some(e) => e,
            None => common::ExecutionResources {
                builtin_instance_counter: common::BuiltinCounters {
                    output_builtin: 0,
                    pedersen_builtin: 0,
                    range_check_builtin: 0,
                    ecdsa_builtin: 0,
                    bitwise_builtin: 0,
                    ec_op_builtin: 0,
                    keccak_builtin: 0,
                    poseidon_builtin: 0,
                    segment_arena_builtin: 0,
                },
                n_steps: 0,
                n_memory_holes: 0,
            },
        };
        let common = proto::ReceiptCommon {
            transaction_hash: proto::Hash(self.1.transaction_hash),
            actual_fee,
            messages_sent: messages_to_proto(&self.1.l2_to_l1_messages),
            execution_resources: resources_to_proto(resources),
            revert_reason,
        };
        match self.0.variant {
            TransactionVariant::DeclareV0(_)
            | TransactionVariant::DeclareV1(_)
            | TransactionVariant::DeclareV2(_)
            | TransactionVariant::DeclareV3(_) => proto::Receipt::Declare(
                proto::DeclareTransactionReceipt { common },
            ),
            TransactionVariant::Deploy(x) => proto::Receipt::Deploy(
                proto::DeployTransactionReceipt { common, contract_address: x.contract_address },
            ),
            TransactionVariant::DeployAccountV0V1(x) => proto::Receipt::DeployAccount(
                proto::DeployAccountTransactionReceipt {
                    common,
                    contract_address: x.contract_address,
                },
            ),
            TransactionVariant::DeployAccountV3(x) => proto::Receipt::DeployAccount(
                proto::DeployAccountTransactionReceipt {
                    common,
                    contract_address: x.contract_address,
                },
            ),
            TransactionVariant::InvokeV0(_)
            | TransactionVariant::InvokeV1(_)
            | TransactionVariant::InvokeV3(_) => proto::Receipt::Invoke(
                proto::InvokeTransactionReceipt { common },
            ),
            TransactionVariant::L1Handler(_) => proto::Receipt::L1Handler(
                proto::L1HandlerTransactionReceipt { common, msg_hash: proto::Hash(Felt::zero()) },
            ),
        }
    }
}

// ---------------------------------------------------------------------------
// Events.

/// `p` is the message for event `e` emitted by the transaction with hash `tx`.
pub open spec fn is_event_of(tx: Felt, e: common::Event, p: proto::Event) -> bool {
    &&& p.transaction_hash == proto::Hash(tx)
    &&& p.from_address == e.from_address
    &&& p.keys@ == e.keys@
    &&& p.data@ == e.data@
}

impl ToProto<proto::Event> for (common::TransactionHash, common::Event) {
    open spec fn proto_defined(&self) -> bool {
        true
    }

    fn to_proto(self) -> (r: proto::Event)
        ensures
            is_event_of(self.0, self.1, r),
            r.transaction_hash.0 == self.0,
            r.from_address == self.1.from_address,
            r.keys@ == self.1.keys@,
            r.data@ == self.1.data@,
    {
        proto::Event {
            transaction_hash: proto::Hash(self.0),
            from_address: self.1.from_address,
            keys: self.1.keys,
            data: self.1.data,
        }
    }
}

} // verus!
