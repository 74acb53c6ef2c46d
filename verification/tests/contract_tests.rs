use ed25519_dalek::{Signer, SigningKey};
use near_sdk::PromiseError;
use onsocial_relayer::balance::{deposit, deposit_gas_pool};
use onsocial_relayer::borsh::encode_delegate_action;
use onsocial_relayer::contract::{finish_action, storage_guard, AuthAbort, STORAGE_DEPOSIT};
use onsocial_relayer::errors::RelayerError;
use onsocial_relayer::events::RelayerEvent;
use onsocial_relayer::plan::{CallArgs, Outcome, PromisePlan, ReceiptAction};
use onsocial_relayer::relay::execute_action;
use onsocial_relayer::state::{Context, Relayer};
use onsocial_relayer::types::{
    Action, DelegateAction, PublicKey, SignatureScheme, SignedDelegateAction,
};

fn accounts(index: u32) -> String {
    format!("account{}.testnet", index)
}

fn setup() -> Relayer {
    Relayer::new(
        accounts(0),
        accounts(2),
        "auth.testnet".to_string(),
        "ft.testnet".to_string(),
        "relayer.testnet".to_string(),
    )
}

fn context() -> Context {
    Context {
        current_account_id: "relayer.testnet".to_string(),
        predecessor_account_id: accounts(0),
        signer_account_id: accounts(1),
        account_balance: 20_000_000_000_000_000_000_000_000,
        attached_deposit: 0,
        prepaid_gas_tgas: 300,
        used_gas_tgas: 10,
        block_timestamp: 1_700_000_000_000_000_000,
        block_timestamp_ms: 1_700_000_000_000,
    }
}

fn signed(actions: Vec<Action>) -> SignedDelegateAction {
    let key = SigningKey::from_bytes(&[7; 32]);
    let delegate_action = DelegateAction {
        sender_id: accounts(1),
        receiver_id: accounts(2),
        actions,
        nonce: 1,
        max_block_height: 1000,
    };
    let payload = encode_delegate_action(&delegate_action).unwrap();
    let signature = key.sign(&payload).to_bytes().to_vec();
    let mut data = vec![0u8];
    data.extend_from_slice(&key.verifying_key().to_bytes());
    SignedDelegateAction {
        delegate_action,
        signature,
        public_key: PublicKey { data },
        session_nonce: 1,
        scheme: SignatureScheme::Ed25519,
        fee_action: None,
        multi_signatures: None,
    }
}

fn bridge(amount: u128) -> Action {
    Action::BridgeTransfer {
        token: "usdc.testnet".to_string(),
        amount,
        destination_chain: "ethereum".to_string(),
        recipient: "0xabc".to_string(),
    }
}

fn callback_args(plan: &PromisePlan) -> &CallArgs {
    match &plan.receipts.last().unwrap().actions[0] {
        ReceiptAction::FunctionCall { call, .. } => call,
        other => panic!("unexpected action {:?}", other),
    }
}

#[test]
fn unauthorized_auth_result_is_refused() {
    let mut relayer = setup();
    let out = relayer.handle_auth_result(accounts(1), signed(vec![Action::Transfer { deposit: 1 }]), false, &context());
    assert!(matches!(out.result, Err(RelayerError::Unauthorized)));
    assert!(out.events.is_empty());
}

#[test]
fn auth_result_checks_the_signature() {
    let mut relayer = setup();
    let mut sd = signed(vec![Action::Transfer { deposit: 1 }]);
    sd.signature[0] ^= 1;
    let out = relayer.handle_auth_result(accounts(1), sd, true, &context());
    assert!(matches!(out.result, Err(RelayerError::Unauthorized)));
}

#[test]
fn authorized_transfer_runs_and_reports() {
    let mut relayer = setup();
    let out = relayer.handle_auth_result(accounts(1), signed(vec![Action::Transfer { deposit: 42 }]), true, &context());
    let plan = out.result.unwrap();
    assert_eq!(plan.receipts.len(), 2);
    assert_eq!(plan.receipts[0].receiver_id, accounts(1));
    assert!(matches!(plan.receipts[0].actions.as_slice(), [ReceiptAction::Transfer { amount: 42 }]));
    assert_eq!(plan.receipts[1].receiver_id, "relayer.testnet");
    match callback_args(&plan) {
        CallArgs::HandleBridgeResult { sender_id, action_type, result } => {
            assert_eq!(sender_id, &accounts(1));
            assert_eq!(action_type, "Transfer");
            assert!(result.is_empty());
        }
        other => panic!("unexpected callback {:?}", other),
    }
}

#[test]
fn chain_signature_needs_a_registered_signer() {
    let mut relayer = setup();
    let action = Action::ChainSignatureRequest {
        target_chain: "solana".to_string(),
        derivation_path: "m/44'/60'/0'/0/0".to_string(),
        payload: vec![1, 2, 3],
    };
    let out = relayer.handle_auth_result(accounts(1), signed(vec![action]), true, &context());
    assert!(matches!(out.result, Err(RelayerError::InvalidAccountId)));
}

#[test]
fn chain_signature_request_is_signed_and_reported() {
    let mut relayer = setup();
    relayer.chain_mpc_mapping.insert("near".to_string(), "mpc.near".to_string());
    let action = Action::ChainSignatureRequest {
        target_chain: "near".to_string(),
        derivation_path: "p".to_string(),
        payload: vec![1, 2, 3],
    };
    let ctx = context();
    let out = relayer.handle_auth_result(accounts(1), signed(vec![action]), true, &ctx);
    let plan = out.result.unwrap();
    assert_eq!(plan.receipts[0].receiver_id, "mpc.near");
    match &plan.receipts[0].actions[0] {
        ReceiptAction::FunctionCall { call: CallArgs::Raw { method_name, args }, deposit, .. } => {
            assert_eq!(method_name, "sign");
            assert_eq!(*deposit, 1);
            let mut expected = vec![3, 0, 0, 0, 1, 2, 3, 1, 0, 0, 0, b'p', 0, 0, 0, 0];
            expected.extend_from_slice(&ctx.block_timestamp.to_le_bytes());
            assert_eq!(args, &expected);
        }
        other => panic!("unexpected action {:?}", other),
    }
    match callback_args(&plan) {
        CallArgs::HandleMpcSignature { chain, request_id, result } => {
            assert_eq!(chain, "near");
            assert_eq!(*request_id, ctx.block_timestamp);
            assert!(result.is_empty());
        }
        other => panic!("unexpected callback {:?}", other),
    }
}

#[test]
fn add_key_lists_method_names() {
    let mut relayer = setup();
    let action = Action::AddKey {
        public_key: PublicKey { data: vec![0; 33] },
        allowance: Some(5),
        receiver_id: "app.testnet".to_string(),
        method_names: vec!["post".to_string(), "tip".to_string(), "stake".to_string()],
    };
    let out = execute_action(&mut relayer, &action, &accounts(1), "AddKey", None, &context());
    let plan = out.result.unwrap();
    match &plan.receipts[0].actions[0] {
        ReceiptAction::AddAccessKey { allowance, receiver_id, function_names, .. } => {
            assert_eq!(*allowance, Some(5));
            assert_eq!(receiver_id, "app.testnet");
            assert_eq!(function_names, "post,tip,stake");
        }
        other => panic!("unexpected action {:?}", other),
    }
}

#[test]
fn function_call_uses_the_cross_contract_gas() {
    let mut relayer = setup();
    let action = Action::FunctionCall { method_name: "post".to_string(), args: vec![9], gas: 1, deposit: 3 };
    let out = execute_action(&mut relayer, &action, &accounts(1), "FunctionCall", None, &context());
    let plan = out.result.unwrap();
    assert_eq!(plan.receipts[0].receiver_id, accounts(1));
    match &plan.receipts[0].actions[0] {
        ReceiptAction::FunctionCall { call: CallArgs::Raw { method_name, args }, deposit, static_gas } => {
            assert_eq!(method_name, "post");
            assert_eq!(args, &vec![9u8]);
            assert_eq!(*deposit, 3);
            assert_eq!(*static_gas, 200_000_000_000_000);
        }
        other => panic!("unexpected action {:?}", other),
    }
}

#[test]
fn ft_transfer_checks_registration_first() {
    let mut relayer = setup();
    let action = Action::FtTransfer {
        token: "usdc.testnet".to_string(),
        receiver_id: accounts(4),
        amount: 10,
        memo: Some("hi".to_string()),
    };
    let plan = execute_action(&mut relayer, &action, &accounts(1), "FtTransfer", None, &context()).result.unwrap();
    let receivers: Vec<&str> = plan.receipts.iter().map(|r| r.receiver_id.as_str()).collect();
    assert_eq!(receivers, vec!["ft.testnet", "relayer.testnet", "ft.testnet", "relayer.testnet", "ft.testnet"]);
    assert!(matches!(
        &plan.receipts[4].actions[0],
        ReceiptAction::FunctionCall { call: CallArgs::FtTransfer { amount: 10, .. }, static_gas: 100_000_000_000_000, .. }
    ));
}

#[test]
fn bridge_fee_below_the_floor_is_refused() {
    let mut relayer = setup();
    relayer.chain_mpc_mapping.insert("ethereum".to_string(), "mpc.testnet".to_string());
    let out = execute_action(&mut relayer, &bridge(5), &accounts(1), "BridgeTransfer", None, &context());
    assert!(matches!(out.result, Err(RelayerError::FeeTooLow)));
    assert!(relayer.pending_transfers.entries().is_empty());
}

#[test]
fn bridge_without_signer_is_refused() {
    let mut relayer = setup();
    relayer.base_fee = 0;
    let out = execute_action(&mut relayer, &bridge(5), &accounts(1), "BridgeTransfer", None, &context());
    assert!(matches!(out.result, Err(RelayerError::InvalidNonce)));
}

#[test]
fn bridge_on_low_balance_is_refused() {
    let mut relayer = setup();
    let mut ctx = context();
    ctx.account_balance = relayer.min_balance;
    let out = execute_action(&mut relayer, &bridge(5), &accounts(1), "BridgeTransfer", None, &ctx);
    assert!(matches!(out.result, Err(RelayerError::InsufficientBalance)));
    assert!(matches!(out.events.as_slice(), [RelayerEvent::LowBalance { .. }]));
}

#[test]
fn bridge_transfer_success_advances_the_nonce() {
    let mut relayer = setup();
    relayer.base_fee = 20_000_000_000_000_000_000_000;
    relayer.chain_mpc_mapping.insert("ethereum".to_string(), "mpc.testnet".to_string());
    let out = relayer.handle_auth_result(accounts(1), signed(vec![bridge(77)]), true, &context());
    let plan = out.result.unwrap();
    assert_eq!(plan.receipts.len(), 3);
    assert_eq!(plan.receipts[0].receiver_id, "relayer.testnet");
    assert!(matches!(&plan.receipts[0].actions[0], ReceiptAction::FunctionCall { call: CallArgs::Lock { amount: 77, .. }, .. }));
    assert_eq!(plan.receipts[1].receiver_id, "mpc.testnet");
    assert!(matches!(callback_args(&plan), CallArgs::HandleBridgeTransferResult { amount: 77, .. }));
    assert!(matches!(out.events.as_slice(), [
        RelayerEvent::BridgeTransferInitiated { nonce: 0, amount: 77, .. },
        RelayerEvent::FeeCharged { fee: 20_000_000_000_000_000_000_000, .. },
    ]));
    assert_eq!(relayer.get_pending_nonce(&"ethereum".to_string()), 0);
    let (refund, event) = relayer.handle_bridge_transfer_result(
        accounts(1), "usdc.testnet".to_string(), 77, "ethereum".to_string(), "0xabc".to_string(), vec![5], Ok(()));
    assert!(refund.receipts.is_empty());
    assert!(matches!(event, RelayerEvent::BridgeTransferCompleted { amount: 77, .. }));
    assert_eq!(relayer.get_pending_nonce(&"ethereum".to_string()), 1);
    assert!(relayer.pending_transfers.get(&"ethereum".to_string()).is_none());
}

#[test]
fn bridge_transfer_failure_refunds_the_fee() {
    let mut relayer = setup();
    relayer.base_fee = 20_000_000_000_000_000_000_000;
    relayer.chain_mpc_mapping.insert("ethereum".to_string(), "mpc.testnet".to_string());
    let out = execute_action(&mut relayer, &bridge(5), &accounts(1), "BridgeTransfer", Some(9), &context());
    assert!(out.result.is_ok());
    let (refund, event) = relayer.handle_bridge_transfer_result(
        accounts(1), "usdc.testnet".to_string(), 5, "ethereum".to_string(), "0xabc".to_string(), vec![],
        Err(PromiseError::Failed));
    assert_eq!(refund.receipts.len(), 1);
    assert_eq!(refund.receipts[0].receiver_id, accounts(1));
    assert!(matches!(refund.receipts[0].actions.as_slice(), [ReceiptAction::Transfer { amount: 20_000_000_000_000_000_000_000 }]));
    assert!(matches!(event, RelayerEvent::BridgeTransferFailed { nonce: 0, .. }));
    assert_eq!(relayer.get_pending_nonce(&"ethereum".to_string()), 0);
    assert!(relayer.pending_transfers.get(&"ethereum".to_string()).is_none());
}

#[test]
fn failed_callbacks_report_empty_results() {
    let mut relayer = setup();
    match relayer.handle_mpc_signature("near".to_string(), 4, vec![1, 2], Err(PromiseError::Failed)) {
        RelayerEvent::CrossChainSignatureResult { chain, request_id, result } => {
            assert_eq!(chain, "near");
            assert_eq!(request_id, 4);
            assert!(result.is_empty());
        }
        other => panic!("unexpected event {:?}", other),
    }
    match relayer.handle_mpc_signature("near".to_string(), 4, vec![1, 2], Ok(())) {
        RelayerEvent::CrossChainSignatureResult { result, .. } => assert_eq!(result, vec![1, 2]),
        other => panic!("unexpected event {:?}", other),
    }
    match relayer.handle_bridge_result(accounts(1), "Transfer".to_string(), vec![3], Err(PromiseError::Failed)) {
        RelayerEvent::BridgeResult { result, action_type, .. } => {
            assert!(result.is_empty());
            assert_eq!(action_type, "Transfer");
        }
        other => panic!("unexpected event {:?}", other),
    }
    match relayer.handle_bridge_result(accounts(1), "Transfer".to_string(), vec![3], Ok(())) {
        RelayerEvent::BridgeResult { result, .. } => assert_eq!(result, vec![3]),
        other => panic!("unexpected event {:?}", other),
    }
}

#[test]
fn registration_pays_the_storage_deposit() {
    let mut relayer = setup();
    let plan = relayer.handle_registration(accounts(1), "usdc.testnet".to_string(), true, false, &context());
    assert_eq!(plan.receipts.len(), 1);
    assert_eq!(plan.receipts[0].receiver_id, "ft.testnet");
    match &plan.receipts[0].actions[0] {
        ReceiptAction::FunctionCall { call: CallArgs::StorageDeposit { deposit: d, account_id, .. }, deposit, .. } => {
            assert_eq!(*d, 1_250_000_000_000_000_000_000);
            assert_eq!(*deposit, STORAGE_DEPOSIT);
            assert_eq!(account_id, &accounts(1));
        }
        other => panic!("unexpected action {:?}", other),
    }
    let plan = relayer.handle_registration(accounts(1), "usdc.testnet".to_string(), true, true, &context());
    assert_eq!(plan.receipts[0].receiver_id, "relayer.testnet");
    assert!(plan.receipts[0].actions.is_empty());
}

#[test]
fn update_contract_rules() {
    let relayer = setup();
    let mut ctx = context();
    ctx.predecessor_account_id = accounts(5);
    assert!(matches!(relayer.update_contract(Some(vec![1]), &ctx).result, Err(RelayerError::Unauthorized)));
    let ctx = context();
    assert!(matches!(relayer.update_contract(None, &ctx).result, Err(RelayerError::MissingInput)));
    let out = relayer.update_contract(Some(vec![0, 97, 115, 109]), &ctx);
    let plan = out.result.unwrap();
    assert_eq!(plan.receipts.len(), 1);
    assert_eq!(plan.receipts[0].receiver_id, "relayer.testnet");
    assert!(matches!(&plan.receipts[0].actions[0], ReceiptAction::DeployContract { code } if code == &vec![0, 97, 115, 109]));
    assert!(matches!(&plan.receipts[0].actions[1], ReceiptAction::FunctionCall { call: CallArgs::Raw { method_name, .. }, static_gas: 250_000_000_000_000, .. } if method_name == "migrate"));
    assert!(matches!(out.events.as_slice(), [RelayerEvent::ContractUpgraded { timestamp: 1_700_000_000_000, .. }]));
}

#[test]
fn storage_guard_charges_the_bytes_used() {
    assert!(storage_guard(100, 150, 10, 1_000, 500).is_ok());
    assert!(storage_guard(100, 150, 10, 999, 500).is_err());
    assert!(matches!(storage_guard(100, 150, 10, 999, 500), Err(RelayerEvent::LowBalance { balance: 999 })));
    assert!(storage_guard(7, 7, 10, 500, 500).is_ok());
}

#[test]
fn finish_action_charges_then_warns() {
    let mut ctx = context();
    ctx.used_gas_tgas = 290;
    let ok: Outcome<u8> = Outcome { result: Ok(1), events: vec![] };
    let out = finish_action(ok, 0, 10, 1, 0, &ctx);
    assert!(matches!(out.result, Ok(1)));
    assert!(matches!(out.events.as_slice(), [RelayerEvent::LowGas { remaining_gas: 10 }]));
    let ok: Outcome<u8> = Outcome { result: Ok(1), events: vec![] };
    let out = finish_action(ok, 0, 10, 1, ctx.account_balance, &ctx);
    assert!(matches!(out.result, Err(RelayerError::InsufficientBalance)));
    assert!(matches!(out.events.as_slice(), [RelayerEvent::LowBalance { .. }]));
    let failed: Outcome<u8> = Outcome { result: Err(RelayerError::FeeTooLow), events: vec![] };
    let out = finish_action(failed, 5, 0, 1, 0, &ctx);
    assert!(matches!(out.result, Err(RelayerError::FeeTooLow)));
    assert!(out.events.is_empty());
}

#[test]
fn deposit_offloads_the_excess() {
    let mut relayer = setup();
    let mut ctx = context();
    ctx.account_balance = relayer.max_balance - 10;
    ctx.attached_deposit = 25;
    let plan = deposit(&mut relayer, &ctx).unwrap();
    assert_eq!(plan.receipts.len(), 1);
    assert_eq!(plan.receipts[0].receiver_id, accounts(2));
    assert!(matches!(plan.receipts[0].actions.as_slice(), [ReceiptAction::Transfer { amount: 15 }]));
    ctx.attached_deposit = 10;
    assert!(deposit(&mut relayer, &ctx).unwrap().receipts.is_empty());
}

#[test]
fn test_deposit_gas_pool() {
    let mut relayer = setup();
    let mut ctx = context();
    ctx.attached_deposit = 2_000_000_000_000_000_000_000_000;
    let result = deposit_gas_pool(&mut relayer, &ctx);
    assert!(result.is_ok());
    assert_eq!(relayer.get_gas_pool(), 2_000_000_000_000_000_000_000_000);
}

#[test]
fn test_deposit_gas_pool_excess() {
    let mut relayer = setup();
    let mut ctx = context();
    ctx.attached_deposit = 600_000_000_000_000_000_000_000_000;
    let result = deposit_gas_pool(&mut relayer, &ctx);
    assert!(result.is_ok());
    assert_eq!(relayer.get_gas_pool(), 500_000_000_000_000_000_000_000_000);
}

#[test]
fn gas_pool_refuses_while_paused() {
    let mut relayer = setup();
    relayer.paused = true;
    let mut ctx = context();
    ctx.attached_deposit = 5;
    assert!(matches!(deposit_gas_pool(&mut relayer, &ctx), Err(RelayerError::ContractPaused)));
    assert_eq!(relayer.get_gas_pool(), 0);
}

#[test]
fn auth_result_aborts_where_the_call_would() {
    let mut relayer = setup();
    assert!(matches!(relayer.try_handle_auth_result(accounts(1), signed(vec![]), true, &context()), Err(AuthAbort::NoAction)));
    let mut low = context();
    low.prepaid_gas_tgas = 100;
    let transfer = vec![Action::Transfer { deposit: 1 }];
    assert!(matches!(relayer.try_handle_auth_result(accounts(1), signed(transfer), true, &low), Err(AuthAbort::GasTooLow)));
    let zero = vec![Action::AddKey {
        public_key: PublicKey { data: vec![0; 33] },
        allowance: Some(0),
        receiver_id: "app.testnet".to_string(),
        method_names: vec![],
    }];
    assert!(matches!(relayer.try_handle_auth_result(accounts(1), signed(zero), true, &context()), Err(AuthAbort::ZeroAllowance)));
    relayer.min_balance = u128::MAX;
    relayer.base_fee = 1;
    assert!(matches!(relayer.try_handle_auth_result(accounts(1), signed(vec![bridge(1)]), true, &context()), Err(AuthAbort::BalanceOverflow)));
    let refused = relayer.try_handle_auth_result(accounts(1), signed(vec![]), false, &context()).unwrap();
    assert!(matches!(refused.result, Err(RelayerError::Unauthorized)));
    let done = relayer.try_handle_auth_result(accounts(1), signed(vec![Action::Transfer { deposit: 1 }]), true, &context()).unwrap();
    assert!(done.result.is_ok());
}
