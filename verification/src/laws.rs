//! Properties that hold of every conversion.

use vstd::prelude::*;

use crate::common::{self, DataAvailabilityMode, TransactionVariant};
use crate::conv::{
    be_bytes_u128, be_value, da_mode_name, is_contract_diff, is_event_of, is_message_of,
    is_receipt_common_of, is_receipt_of, is_state_diff_of, is_transaction_of,
    reported_resources, resources_fit, resources_of, stored_values,
};
use crate::felt::Felt;
use crate::fields::{
    msg_account, msg_account_deployment_data, msg_calldata, msg_class_hash,
    msg_compiled_class_hash, msg_entry_point, msg_max_fee, msg_nonce, msg_salt, msg_signature,
    msg_v3_fees, receipt_contract_address, tx_account, tx_account_deployment_data, tx_calldata,
    tx_class_hash, tx_compiled_class_hash, tx_deployed_address, tx_entry_point, tx_max_fee,
    tx_nonce, tx_salt, tx_signature, tx_v3_fees,
};
use crate::proto;

verus! {

proof fn lemma_shift_step(v: u128, s: u32)
    by (bit_vector)
    requires
        s <= 112,
    ensures
        (v >> ((s + 8) as u32)) * 256 + (((v >> s) as u8) as u128) == v >> s,
{
}

proof fn lemma_top_byte(v: u128)
    by (bit_vector)
    ensures
        ((v >> 120u32) as u8) as u128 == v >> 120u32,
        v >> 0u32 == v,
{
}

proof fn lemma_prefix_value(price: u128, k: int)
    requires
        1 <= k <= 16,
    ensures
        be_value(be_bytes_u128(price).take(k)) == price >> ((128 - 8 * k) as u32),
    decreases k,
{
    let bytes = be_bytes_u128(price);
    if k == 1 {
        lemma_top_byte(price);
        assert(bytes.take(1).drop_last() =~= Seq::<u8>::empty());
        reveal_with_fuel(be_value, 2);
    } else {
        lemma_prefix_value(price, k - 1);
        let s: u32 = (128 - 8 * k) as u32;
        lemma_shift_step(price, s);
        assert(bytes.take(k).drop_last() =~= bytes.take(k - 1));
        assert(((s + 8) as u32) == ((128 - 8 * (k - 1)) as u32));
    }
}

/// The bytes that carry the gas price give the price back: the encoding loses
/// nothing.
pub proof fn lemma_gas_price_bytes_decode(price: u128)
    ensures
        be_bytes_u128(price).len() == 16,
        be_value(be_bytes_u128(price)) == price,
{
    lemma_prefix_value(price, 16);
    lemma_top_byte(price);
    assert(be_bytes_u128(price).take(16) =~= be_bytes_u128(price));
}

/// The two data-availability modes are sent under different names.
pub proof fn lemma_da_mode_names_distinct(a: DataAvailabilityMode, b: DataAvailabilityMode)
    ensures
        da_mode_name(a) == da_mode_name(b) <==> a == b,
{
    reveal_strlit("L1");
    reveal_strlit("L2");
    if a != b {
        assert(da_mode_name(a)[1] != da_mode_name(b)[1]);
    }
}

/// Where a receipt's resource counts fit in 32 bits, the message carries each
/// count unchanged.
pub proof fn lemma_resources_carried_exactly(e: common::ExecutionResources)
    requires
        resources_fit(e),
    ensures
        resources_of(e).builtins.bitwise == e.builtin_instance_counter.bitwise_builtin,
        resources_of(e).builtins.ecdsa == e.builtin_instance_counter.ecdsa_builtin,
        resources_of(e).builtins.ec_op == e.builtin_instance_counter.ec_op_builtin,
        resources_of(e).builtins.pedersen == e.builtin_instance_counter.pedersen_builtin,
        resources_of(e).builtins.range_check == e.builtin_instance_counter.range_check_builtin,
        resources_of(e).builtins.poseidon == e.builtin_instance_counter.poseidon_builtin,
        resources_of(e).builtins.keccak == e.builtin_instance_counter.keccak_builtin,
        resources_of(e).builtins.output == e.builtin_instance_counter.output_builtin,
        resources_of(e).builtins.segment_arena
            == e.builtin_instance_counter.segment_arena_builtin,
        resources_of(e).steps == e.n_steps,
        resources_of(e).memory_holes == e.n_memory_holes,
{
}

/// Where the state update is well formed (no contract address and no storage
/// key twice), the message names no contract twice among the system contracts,
/// none twice among the other contracts, and no storage key twice within a
/// contract.
pub proof fn lemma_state_diff_keys_distinct(s: common::StateUpdate, p: proto::StateDiff)
    requires
        s.wf(),
        is_state_diff_of(s, p),
    ensures
        forall|i: int, j: int|
            0 <= i < s.system_contract_updates@.len() && 0 <= j
                < s.system_contract_updates@.len() && i != j ==> #[trigger] p.contract_diffs@[i].address
                != #[trigger] p.contract_diffs@[j].address,
        forall|i: int, j: int|
            s.system_contract_updates@.len() <= i < p.contract_diffs@.len()
                && s.system_contract_updates@.len() <= j < p.contract_diffs@.len() && i != j
                ==> #[trigger] p.contract_diffs@[i].address != #[trigger] p.contract_diffs@[j].address,
        forall|i: int, a: int, b: int|
            0 <= i < p.contract_diffs@.len() && 0 <= a < p.contract_diffs@[i].values@.len() && 0
                <= b < p.contract_diffs@[i].values@.len() && a != b
                ==> #[trigger] p.contract_diffs@[i].values@[a].key
                != #[trigger] p.contract_diffs@[i].values@[b].key,
{
    let sys = s.system_contract_updates@;
    let cus = s.contract_updates@;
    let n = sys.len();
    assert forall|i: int, j: int|
        0 <= i < n && 0 <= j < n && i != j implies #[trigger] p.contract_diffs@[i].address
        != #[trigger] p.contract_diffs@[j].address by {
        assert(sys[i].0 != sys[j].0);
    }
    assert forall|i: int, j: int|
        n <= i < p.contract_diffs@.len() && n <= j < p.contract_diffs@.len() && i != j
        implies #[trigger] p.contract_diffs@[i].address
        != #[trigger] p.contract_diffs@[j].address by {
        let ci = i - n;
        let cj = j - n;
        assert(p.contract_diffs@[n + ci] == p.contract_diffs@[i]);
        assert(p.contract_diffs@[n + cj] == p.contract_diffs@[j]);
        assert(cus[ci].0 != cus[cj].0);
    }
    assert forall|i: int, a: int, b: int|
        0 <= i < p.contract_diffs@.len() && 0 <= a < p.contract_diffs@[i].values@.len() && 0 <= b
            < p.contract_diffs@[i].values@.len() && a != b
        implies #[trigger] p.contract_diffs@[i].values@[a].key
        != #[trigger] p.contract_diffs@[i].values@[b].key by {
        if i < n {
            let st = sys[i].1.storage@;
            assert(p.contract_diffs@[i].values@ == stored_values(st));
            assert(keys_distinct_at(st, a, b));
        } else {
            let c = i - n;
            assert(p.contract_diffs@[n + c] == p.contract_diffs@[i]);
            let st = cus[c].1.storage@;
            assert(p.contract_diffs@[i].values@ == stored_values(st));
            assert(keys_distinct_at(st, a, b));
        }
    }
}

spec fn keys_distinct_at(st: Seq<(crate::felt::Felt, crate::felt::Felt)>, a: int, b: int) -> bool {
    st[a].0 != st[b].0
}

/// The part of a receipt message that every kind shares depends on the
/// receipt alone: pairing one receipt with any two transactions gives the same
/// common part.
pub proof fn lemma_receipt_common_independent_of_transaction(
    t1: TransactionVariant,
    t2: TransactionVariant,
    r: common::Receipt,
    p1: proto::Receipt,
    p2: proto::Receipt,
)
    requires
        is_receipt_of(t1, r, p1),
        is_receipt_of(t2, r, p2),
    ensures
        p1.common().transaction_hash == p2.common().transaction_hash,
        p1.common().actual_fee == p2.common().actual_fee,
        p1.common().execution_resources == p2.common().execution_resources,
        p1.common().revert_reason@ == p2.common().revert_reason@,
        p1.common().messages_sent@.len() == p2.common().messages_sent@.len(),
        forall|i: int|
            0 <= i < p1.common().messages_sent@.len() ==> {
                &&& #[trigger] p1.common().messages_sent@[i].from_address
                    == p2.common().messages_sent@[i].from_address
                &&& p1.common().messages_sent@[i].payload@
                    == p2.common().messages_sent@[i].payload@
                &&& p1.common().messages_sent@[i].to_address
                    == p2.common().messages_sent@[i].to_address
            },
{
    let c1 = p1.common();
    let c2 = p2.common();
    assert(is_receipt_common_of(r, c1));
    assert(is_receipt_common_of(r, c2));
    assert forall|i: int| 0 <= i < c1.messages_sent@.len() implies {
        &&& #[trigger] c1.messages_sent@[i].from_address == c2.messages_sent@[i].from_address
        &&& c1.messages_sent@[i].payload@ == c2.messages_sent@[i].payload@
        &&& c1.messages_sent@[i].to_address == c2.messages_sent@[i].to_address
    } by {
        assert(is_message_of(r.l2_to_l1_messages@[i], c1.messages_sent@[i]));
        assert(is_message_of(r.l2_to_l1_messages@[i], c2.messages_sent@[i]));
    }
}

/// A transaction's message is the variant of the same kind and version, and it
/// carries the transaction's fields: the signature and the call or
/// constructor data in full and in order, the nonce (version-0 declares send
/// none), fee, class hashes, account, entry point and salt unchanged, the
/// version-3 fee fields with the same numbers, the first paymaster and account
/// deployment data element (zero where there is none), and a deploy version
/// that is 0 exactly when the transaction's version is zero, else 1.
pub proof fn lemma_transaction_fields_carried(v: TransactionVariant, p: proto::Transaction)
    requires
        is_transaction_of(v, p),
    ensures
        (p is DeclareV0) == (v is DeclareV0),
        (p is DeclareV1) == (v is DeclareV1),
        (p is DeclareV2) == (v is DeclareV2),
        (p is DeclareV3) == (v is DeclareV3),
        (p is Deploy) == (v is Deploy),
        (p is DeployAccountV1) == (v is DeployAccountV0V1),
        (p is DeployAccountV3) == (v is DeployAccountV3),
        (p is InvokeV0) == (v is InvokeV0),
        (p is InvokeV1) == (v is InvokeV1),
        (p is InvokeV3) == (v is InvokeV3),
        (p is L1HandlerV0) == (v is L1Handler),
        msg_signature(p) == tx_signature(v),
        msg_calldata(p) == tx_calldata(v),
        msg_nonce(p) == (if v is DeclareV0 {
            None
        } else {
            tx_nonce(v)
        }),
        msg_max_fee(p) == tx_max_fee(v),
        msg_class_hash(p) == tx_class_hash(v),
        msg_compiled_class_hash(p) == tx_compiled_class_hash(v),
        msg_account(p) == tx_account(v),
        msg_entry_point(p) == tx_entry_point(v),
        msg_salt(p) == tx_salt(v),
        (msg_v3_fees(p) is Some) == (tx_v3_fees(v) is Some),
        tx_v3_fees(v) matches Some(t) ==> msg_v3_fees(p) matches Some(m) && {
            &&& m.0.l1_gas.max_amount.value() == t.0.l1_gas.max_amount
            &&& m.0.l1_gas.max_price_per_unit.value() == t.0.l1_gas.max_price_per_unit
            &&& m.0.l2_gas.max_amount.value() == t.0.l2_gas.max_amount
            &&& m.0.l2_gas.max_price_per_unit.value() == t.0.l2_gas.max_price_per_unit
            &&& m.1.value() == t.1
            &&& (t.2.len() > 0 ==> m.2 == t.2[0])
            &&& (t.2.len() == 0 ==> m.2.value() == 0)
            &&& (t.3 == DataAvailabilityMode::L1 ==> m.3 == "L1"@)
            &&& (t.3 == DataAvailabilityMode::L2 ==> m.3 == "L2"@)
            &&& (t.4 == DataAvailabilityMode::L1 ==> m.4 == "L1"@)
            &&& (t.4 == DataAvailabilityMode::L2 ==> m.4 == "L2"@)
        },
        (msg_account_deployment_data(p) is Some) == (tx_account_deployment_data(v) is Some),
        tx_account_deployment_data(v) matches Some(a) ==> msg_account_deployment_data(p)
            matches Some(m) && (a.len() > 0 ==> m == a[0]) && (a.len() == 0 ==> m.value() == 0),
        v matches TransactionVariant::Deploy(x) ==> p matches proto::Transaction::Deploy(d) && (
        d.version == 0) == (x.version.value() == 0) && d.version <= 1,
{
}

/// A receipt message has the kind of its transaction (declare, deploy,
/// deploy account, invoke, L1 handler), carries the deployed address for
/// deploy and deploy-account transactions and a zero message hash for L1
/// handlers, and carries the receipt's hash, fee (zero where absent), L2-to-L1
/// messages in full, resource counts (zero where absent) and revert reason
/// (empty where execution succeeded).
pub proof fn lemma_receipt_fields_carried(
    t: TransactionVariant,
    r: common::Receipt,
    p: proto::Receipt,
)
    requires
        is_receipt_of(t, r, p),
        resources_fit(reported_resources(r)),
    ensures
        (p is Declare) == (t is DeclareV0 || t is DeclareV1 || t is DeclareV2
            || t is DeclareV3),
        (p is Deploy) == (t is Deploy),
        (p is DeployAccount) == (t is DeployAccountV0V1 || t is DeployAccountV3),
        (p is Invoke) == (t is InvokeV0 || t is InvokeV1 || t is InvokeV3),
        (p is L1Handler) == (t is L1Handler),
        receipt_contract_address(p) == tx_deployed_address(t),
        p matches proto::Receipt::L1Handler(d) ==> d.msg_hash.0.value() == 0,
        p.common().transaction_hash.0 == r.transaction_hash,
        r.actual_fee matches Some(f) ==> p.common().actual_fee == f,
        r.actual_fee is None ==> p.common().actual_fee.value() == 0,
        p.common().messages_sent@.len() == r.l2_to_l1_messages@.len(),
        forall|i: int|
            0 <= i < r.l2_to_l1_messages@.len() ==> {
                &&& #[trigger] p.common().messages_sent@[i].from_address
                    == r.l2_to_l1_messages@[i].from_address
                &&& p.common().messages_sent@[i].payload@ == r.l2_to_l1_messages@[i].payload@
                &&& p.common().messages_sent@[i].to_address.0 == r.l2_to_l1_messages@[i].to_address.0
            },
        r.execution_resources matches Some(e) ==> {
            let c = p.common().execution_resources;
            let b = e.builtin_instance_counter;
            &&& c.builtins.bitwise == b.bitwise_builtin
            &&& c.builtins.ecdsa == b.ecdsa_builtin
            &&& c.builtins.ec_op == b.ec_op_builtin
            &&& c.builtins.pedersen == b.pedersen_builtin
            &&& c.builtins.range_check == b.range_check_builtin
            &&& c.builtins.poseidon == b.poseidon_builtin
            &&& c.builtins.keccak == b.keccak_builtin
            &&& c.builtins.output == b.output_builtin
            &&& c.builtins.segment_arena == b.segment_arena_builtin
            &&& c.steps == e.n_steps
            &&& c.memory_holes == e.n_memory_holes
        },
        r.execution_resources is None ==> {
            let c = p.common().execution_resources;
            &&& c.builtins.bitwise == 0
            &&& c.builtins.ecdsa == 0
            &&& c.builtins.ec_op == 0
            &&& c.builtins.pedersen == 0
            &&& c.builtins.range_check == 0
            &&& c.builtins.poseidon == 0
            &&& c.builtins.keccak == 0
            &&& c.builtins.output == 0
            &&& c.builtins.segment_arena == 0
            &&& c.steps == 0
            &&& c.memory_holes == 0
        },
        r.execution_status matches common::ExecutionStatus::Reverted { reason }
            ==> p.common().revert_reason@ == reason@,
        r.execution_status is Succeeded ==> p.common().revert_reason@.len() == 0,
{
    assert(is_receipt_common_of(r, p.common()));
    assert forall|i: int| 0 <= i < r.l2_to_l1_messages@.len() implies {
        &&& #[trigger] p.common().messages_sent@[i].from_address
            == r.l2_to_l1_messages@[i].from_address
        &&& p.common().messages_sent@[i].payload@ == r.l2_to_l1_messages@[i].payload@
        &&& p.common().messages_sent@[i].to_address.0 == r.l2_to_l1_messages@[i].to_address.0
    } by {
        assert(is_message_of(r.l2_to_l1_messages@[i], p.common().messages_sent@[i]));
    }
}

/// A state diff has one contract diff per updated contract, system contracts
/// first, each in the order of its list; each diff carries its contract's
/// address, its storage writes (keys and values unchanged, in order), and for
/// other contracts the nonce and the class hash that the update sets, while
/// system contracts carry neither.
pub proof fn lemma_state_diff_carries_updates(s: common::StateUpdate, p: proto::StateDiff)
    requires
        is_state_diff_of(s, p),
    ensures
        p.domain == 0,
        p.contract_diffs@.len() == s.system_contract_updates@.len() + s.contract_updates@.len(),
        forall|i: int|
            0 <= i < s.system_contract_updates@.len() ==> {
                let d = #[trigger] p.contract_diffs@[i];
                let u = s.system_contract_updates@[i];
                &&& d.address.0 == u.0
                &&& d.nonce is None
                &&& d.class_hash is None
                &&& d.values@.len() == u.1.storage@.len()
                &&& forall|k: int|
                    0 <= k < u.1.storage@.len() ==> #[trigger] d.values@[k].key == u.1.storage@[k].0
                        && d.values@[k].value == u.1.storage@[k].1
            },
        forall|j: int|
            0 <= j < s.contract_updates@.len() ==> {
                let d = #[trigger] p.contract_diffs@[s.system_contract_updates@.len() + j];
                let u = s.contract_updates@[j];
                &&& d.address.0 == u.0
                &&& d.nonce == u.1.nonce
                &&& (u.1.class matches Some(common::ContractClassUpdate::Deploy(h)) ==> d.class_hash
                    == Some(h))
                &&& (u.1.class matches Some(common::ContractClassUpdate::Replace(h))
                    ==> d.class_hash == Some(h))
                &&& (u.1.class is None ==> d.class_hash is None)
                &&& d.values@.len() == u.1.storage@.len()
                &&& forall|k: int|
                    0 <= k < u.1.storage@.len() ==> #[trigger] d.values@[k].key == u.1.storage@[k].0
                        && d.values@[k].value == u.1.storage@[k].1
            },
{
    let n = s.system_contract_updates@.len();
    assert forall|j: int| 0 <= j < s.contract_updates@.len() implies {
        let d = #[trigger] p.contract_diffs@[n + j];
        let u = s.contract_updates@[j];
        &&& d.address.0 == u.0
        &&& d.nonce == u.1.nonce
        &&& (u.1.class matches Some(common::ContractClassUpdate::Deploy(h)) ==> d.class_hash
            == Some(h))
        &&& (u.1.class matches Some(common::ContractClassUpdate::Replace(h))
            ==> d.class_hash == Some(h))
        &&& (u.1.class is None ==> d.class_hash is None)
        &&& d.values@.len() == u.1.storage@.len()
        &&& forall|k: int|
            0 <= k < u.1.storage@.len() ==> #[trigger] d.values@[k].key == u.1.storage@[k].0
                && d.values@[k].value == u.1.storage@[k].1
    } by {
        assert(is_contract_diff(s.contract_updates@[j].0, s.contract_updates@[j].1, p.contract_diffs@[n + j]));
    }
}

/// Each storage write is carried unchanged and in place: the message at index
/// `i` has the key and the value of the write at index `i`.
pub proof fn lemma_storage_writes_carried(storage: Seq<(Felt, Felt)>)
    ensures
        stored_values(storage).len() == storage.len(),
        forall|i: int|
            0 <= i < storage.len() ==> #[trigger] stored_values(storage)[i].key == storage[i].0
                && stored_values(storage)[i].value == storage[i].1
                && stored_values(storage)[i].value.value() == storage[i].1.value(),
{
}

/// An event message carries the transaction hash, the emitting contract, and
/// the event's keys and data in full and in order.
pub proof fn lemma_event_fields_carried(tx: Felt, e: common::Event, p: proto::Event)
    requires
        is_event_of(tx, e, p),
    ensures
        p.transaction_hash.0 == tx,
        p.from_address == e.from_address,
        p.keys@ == e.keys@,
        p.keys@.len() == e.keys@.len(),
        p.data@ == e.data@,
        p.data@.len() == e.data@.len(),
{
}

} // verus!
