use p2p_conv::common::{
    BlockHeader, BuiltinCounters, ContractClassUpdate, ContractUpdate, DataAvailabilityMode,
    DeclareTransactionV0V1, DeclareTransactionV3, DeployAccountTransactionV0V1,
    DeployAccountTransactionV3, DeployTransaction, EthereumAddress, Event, ExecutionResources,
    ExecutionStatus, InvokeTransactionV0, InvokeTransactionV1, InvokeTransactionV3,
    L1HandlerTransaction, L2ToL1Message, Receipt, ResourceBound, ResourceBounds, StateUpdate,
    SystemContractUpdate, Transaction, TransactionVariant, DeclareTransactionV2,
};
use p2p_conv::conv::u128_to_be_bytes;
use p2p_conv::proto;
use p2p_conv::{Felt, ToProto};

fn felt(v: u64) -> Felt {
    Felt::from(v)
}

fn header(commitment: Felt) -> BlockHeader {
    BlockHeader {
        hash: felt(11),
        parent_hash: felt(10),
        number: 42,
        timestamp: 1_700_000_000,
        eth_l1_gas_price: 0x0102_0304_0506_0708_090a_0b0c_0d0e_0f10,
        sequencer_address: felt(7),
        state_commitment: commitment,
        starknet_version: "0.13.1".to_string(),
    }
}

#[test]
fn felt_from_integers() {
    assert_eq!(Felt::from(5u64), Felt { high: 0, low: 5 });
    assert_eq!(Felt::from(u128::MAX), Felt { high: 0, low: u128::MAX });
    assert!(Felt::zero().is_zero());
    assert!(!Felt { high: 1, low: 0 }.is_zero());
}

#[test]
fn gas_price_is_big_endian() {
    let bytes = u128_to_be_bytes(0x0102_0304_0506_0708_090a_0b0c_0d0e_0f10);
    assert_eq!(bytes, (1u8..=16).collect::<Vec<u8>>());
    assert_eq!(u128_to_be_bytes(0), vec![0u8; 16]);
    assert_eq!(u128_to_be_bytes(u128::MAX), vec![0xffu8; 16]);
}

#[test]
fn gas_price_bytes_decode_back() {
    for price in [0u128, 1, 255, 256, 0xdead_beef, u128::MAX, 1 << 127] {
        let bytes = u128_to_be_bytes(price);
        let decoded = bytes.iter().fold(0u128, |acc, b| (acc << 8) | *b as u128);
        assert_eq!(decoded, price);
    }
}

#[test]
fn block_header_fields() {
    let p: proto::BlockHeader = header(felt(99)).to_proto();
    let zero_merkle = proto::Merkle { n_leaves: 0, root: proto::Hash(Felt::zero()) };
    assert_eq!(p.parent_hash, proto::Hash(felt(10)));
    assert_eq!(p.hash, proto::Hash(felt(11)));
    assert_eq!(p.number, 42);
    assert_eq!(p.time, 1_700_000_000);
    assert_eq!(p.sequencer_address, proto::Address(felt(7)));
    assert_eq!(p.state_diffs, zero_merkle);
    assert_eq!(p.transactions, zero_merkle);
    assert_eq!(p.events, zero_merkle);
    assert_eq!(p.receipts, zero_merkle);
    assert_eq!(p.state, proto::Patricia { height: 0, root: proto::Hash(Felt::zero()) });
    assert_eq!(p.proof_fact, proto::Hash(Felt::zero()));
    assert_eq!(p.gas_price, (1u8..=16).collect::<Vec<u8>>());
    assert_eq!(p.starknet_version, "0.13.1");
    assert_eq!(p.state_commitment, Some(proto::Hash(felt(99))));
}

#[test]
fn block_header_zero_commitment_is_absent() {
    let p: proto::BlockHeader = header(Felt::zero()).to_proto();
    assert_eq!(p.state_commitment, None);
    let p: proto::BlockHeader = header(Felt { high: 1, low: 0 }).to_proto();
    assert_eq!(p.state_commitment, Some(proto::Hash(Felt { high: 1, low: 0 })));
}

#[test]
fn block_header_latest_representable_time() {
    let mut h = header(felt(1));
    h.timestamp = i64::MAX as u64;
    let p: proto::BlockHeader = h.to_proto();
    assert_eq!(p.time, i64::MAX as u64);
}

#[test]
fn data_availability_mode_names() {
    let l1: String = DataAvailabilityMode::L1.to_proto();
    let l2: String = DataAvailabilityMode::L2.to_proto();
    assert_eq!(l1, "L1");
    assert_eq!(l2, "L2");
    assert_ne!(l1, l2);
}

#[test]
fn resource_bound_to_felts() {
    let b = ResourceBound { max_amount: u64::MAX, max_price_per_unit: u128::MAX };
    let p: proto::ResourceLimits = b.to_proto();
    assert_eq!(p.max_amount, Felt { high: 0, low: u64::MAX as u128 });
    assert_eq!(p.max_price_per_unit, Felt { high: 0, low: u128::MAX });
}

#[test]
fn state_update_order_and_fields() {
    let s = StateUpdate {
        system_contract_updates: vec![(
            felt(1),
            SystemContractUpdate { storage: vec![(felt(100), felt(200)), (felt(101), felt(201))] },
        )],
        contract_updates: vec![
            (
                felt(5),
                ContractUpdate {
                    storage: vec![(felt(300), felt(400))],
                    class: Some(ContractClassUpdate::Deploy(felt(77))),
                    nonce: Some(felt(3)),
                },
            ),
            (
                felt(6),
                ContractUpdate {
                    storage: vec![],
                    class: Some(ContractClassUpdate::Replace(felt(78))),
                    nonce: None,
                },
            ),
            (felt(8), ContractUpdate { storage: vec![], class: None, nonce: Some(felt(9)) }),
        ],
    };
    let p: proto::StateDiff = s.to_proto();
    assert_eq!(p.domain, 0);
    assert_eq!(p.contract_diffs.len(), 4);
    assert_eq!(
        p.contract_diffs[0],
        proto::ContractDiff {
            address: proto::Address(felt(1)),
            nonce: None,
            class_hash: None,
            values: vec![
                proto::ContractStoredValue { key: felt(100), value: felt(200) },
                proto::ContractStoredValue { key: felt(101), value: felt(201) },
            ],
        }
    );
    assert_eq!(
        p.contract_diffs[1],
        proto::ContractDiff {
            address: proto::Address(felt(5)),
            nonce: Some(felt(3)),
            class_hash: Some(felt(77)),
            values: vec![proto::ContractStoredValue { key: felt(300), value: felt(400) }],
        }
    );
    assert_eq!(p.contract_diffs[2].class_hash, Some(felt(78)));
    assert_eq!(p.contract_diffs[2].nonce, None);
    assert!(p.contract_diffs[2].values.is_empty());
    assert_eq!(p.contract_diffs[3].class_hash, None);
    assert_eq!(p.contract_diffs[3].nonce, Some(felt(9)));
}

#[test]
fn empty_state_update() {
    let s = StateUpdate { system_contract_updates: vec![], contract_updates: vec![] };
    let p: proto::StateDiff = s.to_proto();
    assert_eq!(p, proto::StateDiff { domain: 0, contract_diffs: vec![] });
}

#[test]
fn class_update_hash() {
    assert_eq!(ContractClassUpdate::Deploy(felt(4)).class_hash(), felt(4));
    assert_eq!(ContractClassUpdate::Replace(felt(5)).class_hash(), felt(5));
}

fn bounds() -> ResourceBounds {
    ResourceBounds {
        l1_gas: ResourceBound { max_amount: 10, max_price_per_unit: 20 },
        l2_gas: ResourceBound { max_amount: 30, max_price_per_unit: 40 },
    }
}

fn proto_bounds() -> proto::ResourceBounds {
    proto::ResourceBounds {
        l1_gas: proto::ResourceLimits { max_amount: felt(10), max_price_per_unit: felt(20) },
        l2_gas: proto::ResourceLimits { max_amount: felt(30), max_price_per_unit: felt(40) },
    }
}

fn tx(variant: TransactionVariant) -> Transaction {
    Transaction { hash: felt(1234), variant }
}

fn sig() -> Vec<Felt> {
    vec![felt(61), felt(62)]
}

fn proto_sig() -> proto::AccountSignature {
    proto::AccountSignature { parts: vec![felt(61), felt(62)] }
}

#[test]
fn declare_v0_and_v1() {
    let x = || DeclareTransactionV0V1 {
        class_hash: felt(1),
        max_fee: felt(2),
        nonce: felt(3),
        signature: sig(),
        sender_address: felt(4),
    };
    let p: proto::Transaction = tx(TransactionVariant::DeclareV0(x())).to_proto();
    assert_eq!(
        p,
        proto::Transaction::DeclareV0(proto::DeclareV0 {
            sender: proto::Address(felt(4)),
            max_fee: felt(2),
            signature: proto_sig(),
            class_hash: proto::Hash(felt(1)),
        })
    );
    let p: proto::Transaction = tx(TransactionVariant::DeclareV1(x())).to_proto();
    assert_eq!(
        p,
        proto::Transaction::DeclareV1(proto::DeclareV1 {
            sender: proto::Address(felt(4)),
            max_fee: felt(2),
            signature: proto_sig(),
            class_hash: proto::Hash(felt(1)),
            nonce: felt(3),
        })
    );
}

#[test]
fn declare_v2() {
    let x = DeclareTransactionV2 {
        class_hash: felt(1),
        max_fee: felt(2),
        nonce: felt(3),
        signature: sig(),
        sender_address: felt(4),
        compiled_class_hash: felt(5),
    };
    let p: proto::Transaction = tx(TransactionVariant::DeclareV2(x)).to_proto();
    assert_eq!(
        p,
        proto::Transaction::DeclareV2(proto::DeclareV2 {
            sender: proto::Address(felt(4)),
            max_fee: felt(2),
            signature: proto_sig(),
            class_hash: proto::Hash(felt(1)),
            nonce: felt(3),
            compiled_class_hash: felt(5),
        })
    );
}

#[test]
fn declare_v3_takes_first_data_elements() {
    let x = DeclareTransactionV3 {
        class_hash: felt(1),
        nonce: felt(3),
        nonce_data_availability_mode: DataAvailabilityMode::L1,
        fee_data_availability_mode: DataAvailabilityMode::L2,
        resource_bounds: bounds(),
        tip: 9,
        paymaster_data: vec![felt(81), felt(82)],
        signature: sig(),
        account_deployment_data: vec![felt(91)],
        sender_address: felt(4),
        compiled_class_hash: felt(5),
    };
    let p: proto::Transaction = tx(TransactionVariant::DeclareV3(x)).to_proto();
    assert_eq!(
        p,
        proto::Transaction::DeclareV3(proto::DeclareV3 {
            sender: proto::Address(felt(4)),
            signature: proto_sig(),
            class_hash: proto::Hash(felt(1)),
            nonce: felt(3),
            compiled_class_hash: felt(5),
            resource_bounds: proto_bounds(),
            tip: felt(9),
            paymaster_data: proto::Address(felt(81)),
            account_deployment_data: proto::Address(felt(91)),
            nonce_domain: "L1".to_string(),
            fee_domain: "L2".to_string(),
        })
    );
}

#[test]
fn empty_paymaster_data_becomes_zero() {
    let x = InvokeTransactionV3 {
        signature: vec![],
        nonce: felt(3),
        nonce_data_availability_mode: DataAvailabilityMode::L2,
        fee_data_availability_mode: DataAvailabilityMode::L1,
        resource_bounds: bounds(),
        tip: 0,
        paymaster_data: vec![],
        account_deployment_data: vec![],
        calldata: vec![felt(5), felt(6)],
        sender_address: felt(4),
    };
    let p: proto::Transaction = tx(TransactionVariant::InvokeV3(x)).to_proto();
    assert_eq!(
        p,
        proto::Transaction::InvokeV3(proto::InvokeV3 {
            sender: proto::Address(felt(4)),
            signature: proto::AccountSignature { parts: vec![] },
            calldata: vec![felt(5), felt(6)],
            resource_bounds: proto_bounds(),
            tip: Felt::zero(),
            paymaster_data: proto::Address(Felt::zero()),
            account_deployment_data: proto::Address(Felt::zero()),
            nonce_domain: "L2".to_string(),
            fee_domain: "L1".to_string(),
            nonce: felt(3),
        })
    );
}

fn deploy(version: Felt) -> DeployTransaction {
    DeployTransaction {
        contract_address: felt(1),
        contract_address_salt: felt(2),
        class_hash: felt(3),
        constructor_calldata: vec![felt(4)],
        version,
    }
}

#[test]
fn deploy_version_is_zero_or_one() {
    let expected = |version| {
        proto::Transaction::Deploy(proto::Deploy {
            class_hash: proto::Hash(felt(3)),
            address_salt: felt(2),
            calldata: vec![felt(4)],
            address: proto::Address(felt(1)),
            version,
        })
    };
    let p: proto::Transaction = tx(TransactionVariant::Deploy(deploy(Felt::zero()))).to_proto();
    assert_eq!(p, expected(0));
    let p: proto::Transaction = tx(TransactionVariant::Deploy(deploy(felt(1)))).to_proto();
    assert_eq!(p, expected(1));
    let p: proto::Transaction = tx(TransactionVariant::Deploy(deploy(felt(7)))).to_proto();
    assert_eq!(p, expected(1));
    let big = Felt { high: 1, low: 0 };
    let p: proto::Transaction = tx(TransactionVariant::Deploy(deploy(big))).to_proto();
    assert_eq!(p, expected(1));
}

#[test]
fn deploy_account_v1_and_v3() {
    let x = DeployAccountTransactionV0V1 {
        contract_address: felt(1),
        max_fee: felt(2),
        signature: sig(),
        nonce: felt(3),
        contract_address_salt: felt(4),
        constructor_calldata: vec![felt(5)],
        class_hash: felt(6),
    };
    let p: proto::Transaction = tx(TransactionVariant::DeployAccountV0V1(x)).to_proto();
    assert_eq!(
        p,
        proto::Transaction::DeployAccountV1(proto::DeployAccountV1 {
            max_fee: felt(2),
            signature: proto_sig(),
            class_hash: proto::Hash(felt(6)),
            nonce: felt(3),
            address_salt: felt(4),
            constructor_calldata: vec![felt(5)],
        })
    );
    let x = DeployAccountTransactionV3 {
        contract_address: felt(1),
        signature: sig(),
        nonce: felt(3),
        nonce_data_availability_mode: DataAvailabilityMode::L1,
        fee_data_availability_mode: DataAvailabilityMode::L1,
        resource_bounds: bounds(),
        tip: 12,
        paymaster_data: vec![felt(71)],
        contract_address_salt: felt(4),
        constructor_calldata: vec![felt(5)],
        class_hash: felt(6),
    };
    let p: proto::Transaction = tx(TransactionVariant::DeployAccountV3(x)).to_proto();
    assert_eq!(
        p,
        proto::Transaction::DeployAccountV3(proto::DeployAccountV3 {
            signature: proto_sig(),
            class_hash: proto::Hash(felt(6)),
            nonce: felt(3),
            address_salt: felt(4),
            calldata: vec![felt(5)],
            resource_bounds: proto_bounds(),
            tip: felt(12),
            paymaster_data: proto::Address(felt(71)),
            nonce_domain: "L1".to_string(),
            fee_domain: "L1".to_string(),
        })
    );
}

#[test]
fn invoke_v0_v1_and_l1_handler() {
    let x = InvokeTransactionV0 {
        calldata: vec![felt(1)],
        sender_address: felt(2),
        entry_point_selector: felt(3),
        max_fee: felt(4),
        signature: sig(),
    };
    let p: proto::Transaction = tx(TransactionVariant::InvokeV0(x)).to_proto();
    assert_eq!(
        p,
        proto::Transaction::InvokeV0(proto::InvokeV0 {
            max_fee: felt(4),
            signature: proto_sig(),
            address: proto::Address(felt(2)),
            entry_point_selector: felt(3),
            calldata: vec![felt(1)],
        })
    );
    let x = InvokeTransactionV1 {
        calldata: vec![felt(1)],
        sender_address: felt(2),
        max_fee: felt(4),
        signature: sig(),
        nonce: felt(5),
    };
    let p: proto::Transaction = tx(TransactionVariant::InvokeV1(x)).to_proto();
    assert_eq!(
        p,
        proto::Transaction::InvokeV1(proto::InvokeV1 {
            sender: proto::Address(felt(2)),
            max_fee: felt(4),
            signature: proto_sig(),
            nonce: felt(5),
            calldata: vec![felt(1)],
        })
    );
    let x = L1HandlerTransaction {
        contract_address: felt(1),
        entry_point_selector: felt(2),
        nonce: felt(3),
        calldata: vec![felt(4), felt(5)],
    };
    let p: proto::Transaction = tx(TransactionVariant::L1Handler(x)).to_proto();
    assert_eq!(
        p,
        proto::Transaction::L1HandlerV0(proto::L1HandlerV0 {
            nonce: felt(3),
            address: proto::Address(felt(1)),
            entry_point_selector: felt(2),
            calldata: vec![felt(4), felt(5)],
        })
    );
}

fn receipt(resources: Option<ExecutionResources>, status: ExecutionStatus) -> Receipt {
    Receipt {
        actual_fee: Some(felt(500)),
        execution_resources: resources,
        l2_to_l1_messages: vec![L2ToL1Message {
            from_address: felt(8),
            payload: vec![felt(1), felt(2)],
            to_address: EthereumAddress([7u8; 20]),
        }],
        execution_status: status,
        transaction_hash: felt(1234),
        transaction_index: 0,
    }
}

fn resources() -> ExecutionResources {
    ExecutionResources {
        builtin_instance_counter: BuiltinCounters {
            output_builtin: 1,
            pedersen_builtin: 2,
            range_check_builtin: 3,
            ecdsa_builtin: 4,
            bitwise_builtin: 5,
            ec_op_builtin: 6,
            keccak_builtin: 7,
            poseidon_builtin: 8,
            segment_arena_builtin: 9,
        },
        n_steps: u32::MAX as u64,
        n_memory_holes: 11,
    }
}

fn l1_handler() -> Transaction {
    tx(TransactionVariant::L1Handler(L1HandlerTransaction {
        contract_address: felt(1),
        entry_point_selector: felt(2),
        nonce: felt(3),
        calldata: vec![],
    }))
}

#[test]
fn receipt_common_fields() {
    let r = receipt(Some(resources()), ExecutionStatus::Reverted { reason: "out of gas".to_string() });
    let p: proto::Receipt = (l1_handler(), r).to_proto();
    let expected_common = proto::ReceiptCommon {
        transaction_hash: proto::Hash(felt(1234)),
        actual_fee: felt(500),
        messages_sent: vec![proto::MessageToL1 {
            from_address: felt(8),
            payload: vec![felt(1), felt(2)],
            to_address: proto::EthereumAddress([7u8; 20]),
        }],
        execution_resources: proto::ExecutionResources {
            builtins: proto::BuiltinCounter {
                bitwise: 5,
                ecdsa: 4,
                ec_op: 6,
                pedersen: 2,
                range_check: 3,
                poseidon: 8,
                keccak: 7,
                output: 1,
                segment_arena: 9,
            },
            steps: u32::MAX,
            memory_holes: 11,
        },
        revert_reason: "out of gas".to_string(),
    };
    assert_eq!(
        p,
        proto::Receipt::L1Handler(proto::L1HandlerTransactionReceipt {
            common: expected_common,
            msg_hash: proto::Hash(Felt::zero()),
        })
    );
}

#[test]
fn receipt_defaults_when_absent() {
    let mut r = receipt(None, ExecutionStatus::Succeeded);
    r.actual_fee = None;
    let p: proto::Receipt = (l1_handler(), r).to_proto();
    let common = match p {
        proto::Receipt::L1Handler(x) => x.common,
        other => panic!("unexpected receipt {:?}", other),
    };
    assert_eq!(common.actual_fee, Felt::zero());
    assert_eq!(common.revert_reason, "");
    assert_eq!(
        common.execution_resources,
        proto::ExecutionResources {
            builtins: proto::BuiltinCounter {
                bitwise: 0,
                ecdsa: 0,
                ec_op: 0,
                pedersen: 0,
                range_check: 0,
                poseidon: 0,
                keccak: 0,
                output: 0,
                segment_arena: 0,
            },
            steps: 0,
            memory_holes: 0,
        }
    );
}

#[test]
fn revert_reason_of_receipt() {
    assert_eq!(receipt(None, ExecutionStatus::Succeeded).revert_reason(), None);
    let r = receipt(None, ExecutionStatus::Reverted { reason: "x".to_string() });
    assert_eq!(r.revert_reason(), Some("x".to_string()));
}

#[test]
fn receipt_kind_follows_transaction() {
    let declare = tx(TransactionVariant::DeclareV0(DeclareTransactionV0V1 {
        class_hash: felt(1),
        max_fee: felt(2),
        nonce: felt(3),
        signature: vec![],
        sender_address: felt(4),
    }));
    let p: proto::Receipt = (declare, receipt(None, ExecutionStatus::Succeeded)).to_proto();
    assert!(matches!(p, proto::Receipt::Declare(_)));

    let p: proto::Receipt =
        (tx(TransactionVariant::Deploy(deploy(felt(1)))), receipt(None, ExecutionStatus::Succeeded))
            .to_proto();
    match p {
        proto::Receipt::Deploy(d) => assert_eq!(d.contract_address, felt(1)),
        other => panic!("unexpected receipt {:?}", other),
    }

    let invoke = tx(TransactionVariant::InvokeV1(InvokeTransactionV1 {
        calldata: vec![],
        sender_address: felt(2),
        max_fee: felt(4),
        signature: vec![],
        nonce: felt(5),
    }));
    let p: proto::Receipt = (invoke, receipt(None, ExecutionStatus::Succeeded)).to_proto();
    assert!(matches!(p, proto::Receipt::Invoke(_)));

    let account = tx(TransactionVariant::DeployAccountV0V1(DeployAccountTransactionV0V1 {
        contract_address: felt(33),
        max_fee: felt(2),
        signature: vec![],
        nonce: felt(3),
        contract_address_salt: felt(4),
        constructor_calldata: vec![],
        class_hash: felt(6),
    }));
    let p: proto::Receipt = (account, receipt(None, ExecutionStatus::Succeeded)).to_proto();
    match p {
        proto::Receipt::DeployAccount(d) => assert_eq!(d.contract_address, felt(33)),
        other => panic!("unexpected receipt {:?}", other),
    }
}

#[test]
fn receipt_common_same_for_any_transaction() {
    let a: proto::Receipt =
        (l1_handler(), receipt(Some(resources()), ExecutionStatus::Succeeded)).to_proto();
    let b: proto::Receipt = (
        tx(TransactionVariant::Deploy(deploy(Felt::zero()))),
        receipt(Some(resources()), ExecutionStatus::Succeeded),
    )
        .to_proto();
    let common = |r: proto::Receipt| match r {
        proto::Receipt::Invoke(x) => x.common,
        proto::Receipt::L1Handler(x) => x.common,
        proto::Receipt::Declare(x) => x.common,
        proto::Receipt::Deploy(x) => x.common,
        proto::Receipt::DeployAccount(x) => x.common,
    };
    assert_eq!(common(a), common(b));
}

#[test]
fn event_fields() {
    let e = Event { data: vec![felt(1), felt(2)], from_address: felt(3), keys: vec![felt(4)] };
    let p: proto::Event = (felt(99), e).to_proto();
    assert_eq!(
        p,
        proto::Event {
            transaction_hash: proto::Hash(felt(99)),
            from_address: felt(3),
            keys: vec![felt(4)],
            data: vec![felt(1), felt(2)],
        }
    );
}
