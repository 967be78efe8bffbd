//! The fields that a transaction or a message carries, read the same way
//! whatever its kind: `None` where the kind has no such field.

use vstd::prelude::*;

use crate::common::{ResourceBounds, TransactionVariant};
use crate::felt::Felt;
use crate::proto;

verus! {

/// The signature of a transaction.
pub open spec fn tx_signature(v: TransactionVariant) -> Option<Seq<Felt>> {
    match v {
        TransactionVariant::DeclareV0(x) => Some(x.signature@),
        TransactionVariant::DeclareV1(x) => Some(x.signature@),
        TransactionVariant::DeclareV2(x) => Some(x.signature@),
        TransactionVariant::DeclareV3(x) => Some(x.signature@),
        TransactionVariant::Deploy(_) => None,
        TransactionVariant::DeployAccountV0V1(x) => Some(x.signature@),
        TransactionVariant::DeployAccountV3(x) => Some(x.signature@),
        TransactionVariant::InvokeV0(x) => Some(x.signature@),
        TransactionVariant::InvokeV1(x) => Some(x.signature@),
        TransactionVariant::InvokeV3(x) => Some(x.signature@),
        TransactionVariant::L1Handler(_) => None,
    }
}

/// The signature parts of a message.
pub open spec fn msg_signature(p: proto::Transaction) -> Option<Seq<Felt>> {
    match p {
        proto::Transaction::DeclareV0(d) => Some(d.signature.parts@),
        proto::Transaction::DeclareV1(d) => Some(d.signature.parts@),
        proto::Transaction::DeclareV2(d) => Some(d.signature.parts@),
        proto::Transaction::DeclareV3(d) => Some(d.signature.parts@),
        proto::Transaction::Deploy(_) => None,
        proto::Transaction::DeployAccountV1(d) => Some(d.signature.parts@),
        proto::Transaction::DeployAccountV3(d) => Some(d.signature.parts@),
        proto::Transaction::InvokeV0(d) => Some(d.signature.parts@),
        proto::Transaction::InvokeV1(d) => Some(d.signature.parts@),
        proto::Transaction::InvokeV3(d) => Some(d.signature.parts@),
        proto::Transaction::L1HandlerV0(_) => None,
    }
}

/// The call or constructor data of a transaction.
pub open spec fn tx_calldata(v: TransactionVariant) -> Option<Seq<Felt>> {
    match v {
        TransactionVariant::DeclareV0(_) => None,
        TransactionVariant::DeclareV1(_) => None,
        TransactionVariant::DeclareV2(_) => None,
        TransactionVariant::DeclareV3(_) => None,
        TransactionVariant::Deploy(x) => Some(x.constructor_calldata@),
        TransactionVariant::DeployAccountV0V1(x) => Some(x.constructor_calldata@),
        TransactionVariant::DeployAccountV3(x) => Some(x.constructor_calldata@),
        TransactionVariant::InvokeV0(x) => Some(x.calldata@),
        TransactionVariant::InvokeV1(x) => Some(x.calldata@),
        TransactionVariant::InvokeV3(x) => Some(x.calldata@),
        TransactionVariant::L1Handler(x) => Some(x.calldata@),
    }
}

/// The call or constructor data of a message.
pub open spec fn msg_calldata(p: proto::Transaction) -> Option<Seq<Felt>> {
    match p {
        proto::Transaction::DeclareV0(_) => None,
        proto::Transaction::DeclareV1(_) => None,
        proto::Transaction::DeclareV2(_) => None,
        proto::Transaction::DeclareV3(_) => None,
        proto::Transaction::Deploy(d) => Some(d.calldata@),
        proto::Transaction::DeployAccountV1(d) => Some(d.constructor_calldata@),
        proto::Transaction::DeployAccountV3(d) => Some(d.calldata@),
        proto::Transaction::InvokeV0(d) => Some(d.calldata@),
        proto::Transaction::InvokeV1(d) => Some(d.calldata@),
        proto::Transaction::InvokeV3(d) => Some(d.calldata@),
        proto::Transaction::L1HandlerV0(d) => Some(d.calldata@),
    }
}

/// The nonce of a transaction.
pub open spec fn tx_nonce(v: TransactionVariant) -> Option<Felt> {
    match v {
        TransactionVariant::DeclareV0(x) => Some(x.nonce),
        TransactionVariant::DeclareV1(x) => Some(x.nonce),
        TransactionVariant::DeclareV2(x) => Some(x.nonce),
        TransactionVariant::DeclareV3(x) => Some(x.nonce),
        TransactionVariant::Deploy(_) => None,
        TransactionVariant::DeployAccountV0V1(x) => Some(x.nonce),
        TransactionVariant::DeployAccountV3(x) => Some(x.nonce),
        TransactionVariant::InvokeV0(_) => None,
        TransactionVariant::InvokeV1(x) => Some(x.nonce),
        TransactionVariant::InvokeV3(x) => Some(x.nonce),
        TransactionVariant::L1Handler(x) => Some(x.nonce),
    }
}

/// The nonce of a message.
pub open spec fn msg_nonce(p: proto::Transaction) -> Option<Felt> {
    match p {
        proto::Transaction::DeclareV0(_) => None,
        proto::Transaction::DeclareV1(d) => Some(d.nonce),
        proto::Transaction::DeclareV2(d) => Some(d.nonce),
        proto::Transaction::DeclareV3(d) => Some(d.nonce),
        proto::Transaction::Deploy(_) => None,
        proto::Transaction::DeployAccountV1(d) => Some(d.nonce),
        proto::Transaction::DeployAccountV3(d) => Some(d.nonce),
        proto::Transaction::InvokeV0(_) => None,
        proto::Transaction::InvokeV1(d) => Some(d.nonce),
        proto::Transaction::InvokeV3(d) => Some(d.nonce),
        proto::Transaction::L1HandlerV0(d) => Some(d.nonce),
    }
}

/// The maximal fee of a transaction.
pub open spec fn tx_max_fee(v: TransactionVariant) -> Option<Felt> {
    match v {
        TransactionVariant::DeclareV0(x) => Some(x.max_fee),
        TransactionVariant::DeclareV1(x) => Some(x.max_fee),
        TransactionVariant::DeclareV2(x) => Some(x.max_fee),
        TransactionVariant::DeployAccountV0V1(x) => Some(x.max_fee),
        TransactionVariant::InvokeV0(x) => Some(x.max_fee),
        TransactionVariant::InvokeV1(x) => Some(x.max_fee),
        _ => None,
    }
}

/// The maximal fee of a message.
pub open spec fn msg_max_fee(p: proto::Transaction) -> Option<Felt> {
    match p {
        proto::Transaction::DeclareV0(d) => Some(d.max_fee),
        proto::Transaction::DeclareV1(d) => Some(d.max_fee),
        proto::Transaction::DeclareV2(d) => Some(d.max_fee),
        proto::Transaction::DeployAccountV1(d) => Some(d.max_fee),
        proto::Transaction::InvokeV0(d) => Some(d.max_fee),
        proto::Transaction::InvokeV1(d) => Some(d.max_fee),
        _ => None,
    }
}

/// The class hash that a transaction declares or deploys.
pub open spec fn tx_class_hash(v: TransactionVariant) -> Option<Felt> {
    match v {
        TransactionVariant::DeclareV0(x) => Some(x.class_hash),
        TransactionVariant::DeclareV1(x) => Some(x.class_hash),
        TransactionVariant::DeclareV2(x) => Some(x.class_hash),
        TransactionVariant::DeclareV3(x) => Some(x.class_hash),
        TransactionVariant::Deploy(x) => Some(x.class_hash),
        TransactionVariant::DeployAccountV0V1(x) => Some(x.class_hash),
        TransactionVariant::DeployAccountV3(x) => Some(x.class_hash),
        _ => None,
    }
}

/// The class hash of a message.
pub open spec fn msg_class_hash(p: proto::Transaction) -> Option<Felt> {
    match p {
        proto::Transaction::DeclareV0(d) => Some(d.class_hash.0),
        proto::Transaction::DeclareV1(d) => Some(d.class_hash.0),
        proto::Transaction::DeclareV2(d) => Some(d.class_hash.0),
        proto::Transaction::DeclareV3(d) => Some(d.class_hash.0),
        proto::Transaction::Deploy(d) => Some(d.class_hash.0),
        proto::Transaction::DeployAccountV1(d) => Some(d.class_hash.0),
        proto::Transaction::DeployAccountV3(d) => Some(d.class_hash.0),
        _ => None,
    }
}

/// The compiled class hash that a transaction declares.
pub open spec fn tx_compiled_class_hash(v: TransactionVariant) -> Option<Felt> {
    match v {
        TransactionVariant::DeclareV2(x) => Some(x.compiled_class_hash),
        TransactionVariant::DeclareV3(x) => Some(x.compiled_class_hash),
        _ => None,
    }
}

/// The compiled class hash of a message.
pub open spec fn msg_compiled_class_hash(p: proto::Transaction) -> Option<Felt> {
    match p {
        proto::Transaction::DeclareV2(d) => Some(d.compiled_class_hash),
        proto::Transaction::DeclareV3(d) => Some(d.compiled_class_hash),
        _ => None,
    }
}

/// The account that a transaction acts on: the sender of a declare or invoke,
/// the contract that a deploy creates or an L1 handler calls.
pub open spec fn tx_account(v: TransactionVariant) -> Option<Felt> {
    match v {
        TransactionVariant::DeclareV0(x) => Some(x.sender_address),
        TransactionVariant::DeclareV1(x) => Some(x.sender_address),
        TransactionVariant::DeclareV2(x) => Some(x.sender_address),
        TransactionVariant::DeclareV3(x) => Some(x.sender_address),
        TransactionVariant::Deploy(x) => Some(x.contract_address),
        TransactionVariant::DeployAccountV0V1(_) => None,
        TransactionVariant::DeployAccountV3(_) => None,
        TransactionVariant::InvokeV0(x) => Some(x.sender_address),
        TransactionVariant::InvokeV1(x) => Some(x.sender_address),
        TransactionVariant::InvokeV3(x) => Some(x.sender_address),
        TransactionVariant::L1Handler(x) => Some(x.contract_address),
    }
}

/// The sender or address field of a message.
pub open spec fn msg_account(p: proto::Transaction) -> Option<Felt> {
    match p {
        proto::Transaction::DeclareV0(d) => Some(d.sender.0),
        proto::Transaction::DeclareV1(d) => Some(d.sender.0),
        proto::Transaction::DeclareV2(d) => Some(d.sender.0),
        proto::Transaction::DeclareV3(d) => Some(d.sender.0),
        proto::Transaction::Deploy(d) => Some(d.address.0),
        proto::Transaction::DeployAccountV1(_) => None,
        proto::Transaction::DeployAccountV3(_) => None,
        proto::Transaction::InvokeV0(d) => Some(d.address.0),
        proto::Transaction::InvokeV1(d) => Some(d.sender.0),
        proto::Transaction::InvokeV3(d) => Some(d.sender.0),
        proto::Transaction::L1HandlerV0(d) => Some(d.address.0),
    }
}

/// The entry point that a transaction calls.
pub open spec fn tx_entry_point(v: TransactionVariant) -> Option<Felt> {
    match v {
        TransactionVariant::InvokeV0(x) => Some(x.entry_point_selector),
        TransactionVariant::L1Handler(x) => Some(x.entry_point_selector),
        _ => None,
    }
}

/// The entry point of a message.
pub open spec fn msg_entry_point(p: proto::Transaction) -> Option<Felt> {
    match p {
        proto::Transaction::InvokeV0(d) => Some(d.entry_point_selector),
        proto::Transaction::L1HandlerV0(d) => Some(d.entry_point_selector),
        _ => None,
    }
}

/// The address salt of a deploying transaction.
pub open spec fn tx_salt(v: TransactionVariant) -> Option<Felt> {
    match v {
        TransactionVariant::Deploy(x) => Some(x.contract_address_salt),
        TransactionVariant::DeployAccountV0V1(x) => Some(x.contract_address_salt),
        TransactionVariant::DeployAccountV3(x) => Some(x.contract_address_salt),
        _ => None,
    }
}

/// The address salt of a message.
pub open spec fn msg_salt(p: proto::Transaction) -> Option<Felt> {
    match p {
        proto::Transaction::Deploy(d) => Some(d.address_salt),
        proto::Transaction::DeployAccountV1(d) => Some(d.address_salt),
        proto::Transaction::DeployAccountV3(d) => Some(d.address_salt),
        _ => None,
    }
}

/// The fee fields of a version-3 transaction: resource bounds, tip, the
/// paymaster data, and the nonce and fee data-availability modes.
pub open spec fn tx_v3_fees(v: TransactionVariant) -> Option<
    (ResourceBounds, u64, Seq<Felt>, crate::common::DataAvailabilityMode, crate::common::DataAvailabilityMode),
> {
    match v {
        TransactionVariant::DeclareV3(x) => Some(
            (
                x.resource_bounds,
                x.tip,
                x.paymaster_data@,
                x.nonce_data_availability_mode,
                x.fee_data_availability_mode,
            ),
        ),
        TransactionVariant::DeployAccountV3(x) => Some(
            (
                x.resource_bounds,
                x.tip,
                x.paymaster_data@,
                x.nonce_data_availability_mode,
                x.fee_data_availability_mode,
            ),
        ),
        TransactionVariant::InvokeV3(x) => Some(
            (
                x.resource_bounds,
                x.tip,
                x.paymaster_data@,
                x.nonce_data_availability_mode,
                x.fee_data_availability_mode,
            ),
        ),
        _ => None,
    }
}

/// The fee fields of a version-3 message.
pub open spec fn msg_v3_fees(p: proto::Transaction) -> Option<
    (proto::ResourceBounds, Felt, Felt, Seq<char>, Seq<char>),
> {
    match p {
        proto::Transaction::DeclareV3(d) => Some(
            (d.resource_bounds, d.tip, d.paymaster_data.0, d.nonce_domain@, d.fee_domain@),
        ),
        proto::Transaction::DeployAccountV3(d) => Some(
            (d.resource_bounds, d.tip, d.paymaster_data.0, d.nonce_domain@, d.fee_domain@),
        ),
        proto::Transaction::InvokeV3(d) => Some(
            (d.resource_bounds, d.tip, d.paymaster_data.0, d.nonce_domain@, d.fee_domain@),
        ),
        _ => None,
    }
}

/// The account deployment data of a transaction.
pub open spec fn tx_account_deployment_data(v: TransactionVariant) -> Option<Seq<Felt>> {
    match v {
        TransactionVariant::DeclareV3(x) => Some(x.account_deployment_data@),
        TransactionVariant::InvokeV3(x) => Some(x.account_deployment_data@),
        _ => None,
    }
}

/// The account deployment data of a message.
pub open spec fn msg_account_deployment_data(p: proto::Transaction) -> Option<Felt> {
    match p {
        proto::Transaction::DeclareV3(d) => Some(d.account_deployment_data.0),
        proto::Transaction::InvokeV3(d) => Some(d.account_deployment_data.0),
        _ => None,
    }
}

/// The address of the contract that a transaction deploys.
pub open spec fn tx_deployed_address(v: TransactionVariant) -> Option<Felt> {
    match v {
        TransactionVariant::Deploy(x) => Some(x.contract_address),
        TransactionVariant::DeployAccountV0V1(x) => Some(x.contract_address),
        TransactionVariant::DeployAccountV3(x) => Some(x.contract_address),
        _ => None,
    }
}

/// The contract address that a receipt message carries.
pub open spec fn receipt_contract_address(p: proto::Receipt) -> Option<Felt> {
    match p {
        proto::Receipt::Deploy(d) => Some(d.contract_address),
        proto::Receipt::DeployAccount(d) => Some(d.contract_address),
        _ => None,
    }
}

} // verus!
