use base64::Engine;
use ed25519_dalek::{Signer, SigningKey};
use onsocial_relayer::borsh::encode_delegate_action;
use onsocial_relayer::errors::RelayerError;
use onsocial_relayer::events::RelayerEvent;
use onsocial_relayer::plan::{CallArgs, ReceiptAction};
use onsocial_relayer::relay::{
    gas_alerts, relay_chunked_meta_transactions, relay_meta_transaction, relay_meta_transactions,
    verify_signature,
};
use onsocial_relayer::state::{Context, Relayer};
use onsocial_relayer::types::{
    Action, DelegateAction, PublicKey, SignatureScheme, SignedDelegateAction,
};

fn accounts(index: u32) -> String {
    format!("account{}.testnet", index)
}

fn setup() -> Relayer {
    Relayer::new(
        accounts(0),
        accounts(2),
        "auth.testnet".to_string(),
        "ft.testnet".to_string(),
        "relayer.testnet".to_string(),
    )
}

const RELAY_COST: u128 = 29_000_000_000_000_000_000_000;

fn funded() -> Relayer {
    let mut relayer = setup();
    relayer.gas_pool = 10_000_000_000_000_000_000_000_000;
    relayer
}

fn context(signer: &str) -> Context {
    Context {
        current_account_id: "relayer.testnet".to_string(),
        predecessor_account_id: signer.to_string(),
        signer_account_id: signer.to_string(),
        account_balance: 20_000_000_000_000_000_000_000_000,
        attached_deposit: 0,
        prepaid_gas_tgas: 300,
        used_gas_tgas: 10,
        block_timestamp: 1_700_000_000_000_000_000,
        block_timestamp_ms: 1_700_000_000_000,
    }
}

fn signed(sender: &str, actions: Vec<Action>, seed: u8) -> SignedDelegateAction {
    let key = SigningKey::from_bytes(&[seed; 32]);
    let delegate_action = DelegateAction {
        sender_id: sender.to_string(),
        receiver_id: accounts(2),
        actions,
        nonce: 1,
        max_block_height: 1000,
    };
    let payload = encode_delegate_action(&delegate_action).unwrap();
    let signature = key.sign(&payload).to_bytes().to_vec();
    let mut data = vec![0u8];
    data.extend_from_slice(&key.verifying_key().to_bytes());
    SignedDelegateAction {
        delegate_action,
        signature,
        public_key: PublicKey { data },
        session_nonce: 1,
        scheme: SignatureScheme::Ed25519,
        fee_action: None,
        multi_signatures: None,
    }
}

fn transfer(amount: u128) -> Action {
    Action::Transfer { deposit: amount }
}

fn sha256(data: &[u8]) -> Vec<u8> {
    near_sdk::env::sha256(data)
}

#[test]
fn delegate_action_borsh_bytes() {
    let d = DelegateAction {
        sender_id: "a".to_string(),
        receiver_id: "b".to_string(),
        actions: vec![Action::Transfer { deposit: 5 }],
        nonce: 2,
        max_block_height: 3,
    };
    let bytes = encode_delegate_action(&d).unwrap();
    let mut expected = vec![1, 0, 0, 0, b'a', 1, 0, 0, 0, b'b', 1, 0, 0, 0, 2];
    expected.extend_from_slice(&5u128.to_le_bytes());
    expected.extend_from_slice(&2u64.to_le_bytes());
    expected.extend_from_slice(&3u64.to_le_bytes());
    assert_eq!(bytes, expected);
}

#[test]
fn verify_signature_accepts_a_valid_signature() {
    let sd = signed(&accounts(1), vec![transfer(1)], 7);
    let hash = sha256(&encode_delegate_action(&sd.delegate_action).unwrap());
    assert!(verify_signature(&sd, &hash).is_ok());
}

#[test]
fn verify_signature_rejects_a_wrong_hash() {
    let sd = signed(&accounts(1), vec![transfer(1)], 7);
    assert!(matches!(verify_signature(&sd, &[0u8; 32]), Err(RelayerError::InvalidSignature)));
}

#[test]
fn verify_signature_rejects_a_tampered_action() {
    let mut sd = signed(&accounts(1), vec![transfer(1)], 7);
    sd.delegate_action.nonce = 2;
    let hash = sha256(&encode_delegate_action(&sd.delegate_action).unwrap());
    assert!(matches!(verify_signature(&sd, &hash), Err(RelayerError::Unauthorized)));
}

#[test]
fn verify_signature_rejects_other_keys_and_lengths() {
    let mut sd = signed(&accounts(1), vec![transfer(1)], 7);
    let hash = sha256(&encode_delegate_action(&sd.delegate_action).unwrap());
    sd.signature.pop();
    assert!(matches!(verify_signature(&sd, &hash), Err(RelayerError::Unauthorized)));
    let mut sd = signed(&accounts(1), vec![transfer(1)], 7);
    sd.public_key.data[0] = 1;
    assert!(matches!(verify_signature(&sd, &hash), Err(RelayerError::Unauthorized)));
    let other = signed(&accounts(1), vec![transfer(1)], 8);
    let mut sd = signed(&accounts(1), vec![transfer(1)], 7);
    sd.public_key = other.public_key;
    assert!(matches!(verify_signature(&sd, &hash), Err(RelayerError::Unauthorized)));
}

#[test]
fn relay_meta_transaction_builds_the_auth_chain() {
    let mut relayer = funded();
    let ctx = context(&accounts(1));
    let sd = signed(&accounts(1), vec![transfer(1)], 7);
    let digest = sha256(&encode_delegate_action(&sd.delegate_action).unwrap());
    let out = relay_meta_transaction(&mut relayer, sd, &ctx);
    let plan = out.result.unwrap();
    assert!(out.events.is_empty());
    assert_eq!(relayer.gas_pool, 10_000_000_000_000_000_000_000_000 - RELAY_COST);
    assert_eq!(plan.receipts.len(), 3);
    assert_eq!(plan.receipts[0].receiver_id, "v1.signer-prod.testnet");
    match &plan.receipts[0].actions[0] {
        ReceiptAction::FunctionCall { call: CallArgs::GetNonce { account_id, tx_hash }, static_gas, .. } => {
            assert_eq!(account_id, &accounts(1));
            assert_eq!(tx_hash, &base64::engine::general_purpose::STANDARD.encode(&digest));
            assert_eq!(*static_gas, relayer.cross_contract_gas);
        }
        other => panic!("unexpected action {:?}", other),
    }
    assert_eq!(plan.receipts[1].receiver_id, "auth.testnet");
    assert!(matches!(&plan.receipts[1].actions[0], ReceiptAction::FunctionCall { call: CallArgs::IsAuthorized { .. }, .. }));
    assert_eq!(plan.receipts[2].receiver_id, "relayer.testnet");
    assert!(matches!(
        &plan.receipts[2].actions[0],
        ReceiptAction::FunctionCall { call: CallArgs::HandleAuthResult { is_authorized: true, .. }, .. }
    ));
}

#[test]
fn relay_meta_transaction_asks_the_testnet_signer_when_registered() {
    let mut relayer = funded();
    relayer.chain_mpc_mapping.insert("testnet".to_string(), "mpc.testnet".to_string());
    let ctx = context(&accounts(1));
    let out = relay_meta_transaction(&mut relayer, signed(&accounts(1), vec![transfer(1)], 7), &ctx);
    assert_eq!(out.result.unwrap().receipts[0].receiver_id, "mpc.testnet");
}

#[test]
fn relay_meta_transaction_refusals() {
    let mut relayer = funded();
    let ctx = context(&accounts(1));
    let two = signed(&accounts(1), vec![transfer(1), transfer(2)], 7);
    assert!(matches!(relay_meta_transaction(&mut relayer, two, &ctx).result, Err(RelayerError::InvalidNonce)));
    let other = signed(&accounts(3), vec![transfer(1)], 7);
    assert!(matches!(relay_meta_transaction(&mut relayer, other, &ctx).result, Err(RelayerError::Unauthorized)));
    let mut poor = context(&accounts(1));
    poor.account_balance = 1;
    let out = relay_meta_transaction(&mut relayer, signed(&accounts(1), vec![transfer(1)], 7), &poor);
    assert!(matches!(out.result, Err(RelayerError::InsufficientBalance)));
    assert!(matches!(out.events.as_slice(), [RelayerEvent::LowBalance { balance: 1 }]));
    assert_eq!(relayer.gas_pool, 10_000_000_000_000_000_000_000_000);
    relayer.gas_pool = 500_000_000_000_000_000_000_000;
    let out = relay_meta_transaction(&mut relayer, signed(&accounts(1), vec![transfer(1)], 7), &ctx);
    assert!(matches!(out.result, Err(RelayerError::InsufficientGasPool)));
    assert!(out.events.is_empty());
    assert_eq!(relayer.gas_pool, 500_000_000_000_000_000_000_000);
}

#[test]
fn low_gas_is_reported() {
    let mut ctx = context(&accounts(1));
    ctx.prepaid_gas_tgas = 260;
    ctx.used_gas_tgas = 215;
    assert!(matches!(gas_alerts(&ctx).as_slice(), [RelayerEvent::LowGas { remaining_gas: 45 }]));
    ctx.used_gas_tgas = 210;
    assert!(gas_alerts(&ctx).is_empty());
    ctx.used_gas_tgas = 400;
    assert!(matches!(gas_alerts(&ctx).as_slice(), [RelayerEvent::LowGas { remaining_gas: 0 }]));
    let mut relayer = funded();
    ctx.used_gas_tgas = 255;
    let out = relay_meta_transaction(&mut relayer, signed(&accounts(1), vec![transfer(1)], 7), &ctx);
    assert!(out.result.is_ok());
    assert!(matches!(out.events.as_slice(), [RelayerEvent::LowGas { remaining_gas: 5 }]));
}

#[test]
fn relay_meta_transactions_batches() {
    let mut relayer = funded();
    let ctx = context(&accounts(1));
    assert!(matches!(relay_meta_transactions(&mut relayer, vec![], &ctx).result, Err(RelayerError::InvalidNonce)));
    let many: Vec<SignedDelegateAction> = (0..6).map(|_| signed(&accounts(1), vec![transfer(1)], 7)).collect();
    assert!(matches!(relay_meta_transactions(&mut relayer, many, &ctx).result, Err(RelayerError::InvalidNonce)));
    let mixed = vec![
        signed(&accounts(1), vec![transfer(1)], 7),
        signed(&accounts(3), vec![transfer(1)], 7),
    ];
    assert!(matches!(relay_meta_transactions(&mut relayer, mixed, &ctx).result, Err(RelayerError::Unauthorized)));
    assert_eq!(relayer.gas_pool, 10_000_000_000_000_000_000_000_000);
    let good: Vec<SignedDelegateAction> = (0..3).map(|i| signed(&accounts(1), vec![transfer(i)], 7)).collect();
    let plans = relay_meta_transactions(&mut relayer, good, &ctx).result.unwrap();
    assert_eq!(plans.len(), 3);
    assert!(plans.iter().all(|p| p.receipts.len() == 3));
    assert_eq!(relayer.gas_pool, 10_000_000_000_000_000_000_000_000 - 3 * RELAY_COST);
}

#[test]
fn chunked_relay_keeps_going_past_a_refused_item() {
    let mut relayer = funded();
    let ctx = context(&accounts(1));
    let ds = vec![
        signed(&accounts(1), vec![transfer(1)], 7),
        signed(&accounts(3), vec![transfer(1)], 7),
        signed(&accounts(1), vec![transfer(2)], 7),
    ];
    let plans = relay_chunked_meta_transactions(&mut relayer, ds, &ctx).result.unwrap();
    assert_eq!(plans.len(), 3);
    assert_eq!(relayer.gas_pool, 10_000_000_000_000_000_000_000_000 - 3 * RELAY_COST);
    assert_eq!(plans[0].receipts.len(), 3);
    assert_eq!(plans[2].receipts.len(), 3);
    assert_eq!(plans[1].receipts.len(), 1);
    assert_eq!(plans[1].receipts[0].receiver_id, "relayer.testnet");
    match &plans[1].receipts[0].actions[0] {
        ReceiptAction::FunctionCall { call: CallArgs::Raw { method_name, args }, deposit, .. } => {
            assert_eq!(method_name, "panic");
            assert_eq!(args, &vec![0u8]);
            assert_eq!(*deposit, 0);
        }
        other => panic!("unexpected action {:?}", other),
    }
    assert!(matches!(relay_chunked_meta_transactions(&mut relayer, vec![], &ctx).result, Err(RelayerError::InvalidNonce)));
}

fn contract_setup(deposit: u128) -> (Relayer, Context) {
    let mut relayer = Relayer::new(
        accounts(0),
        accounts(2),
        accounts(1),
        "ft.testnet".to_string(),
        "relayer.testnet".to_string(),
    );
    let mut ctx = context(&accounts(1));
    ctx.attached_deposit = deposit;
    onsocial_relayer::balance::deposit_gas_pool(&mut relayer, &ctx).unwrap();
    ctx.attached_deposit = 0;
    (relayer, ctx)
}

fn create_signed_delegate(
    sender_id: String,
    receiver_id: &str,
    actions: Vec<Action>,
    fee_action: Option<Action>,
) -> SignedDelegateAction {
    let mut sd = signed(&sender_id, actions, 11);
    sd.delegate_action.receiver_id = receiver_id.to_string();
    let key = SigningKey::from_bytes(&[11; 32]);
    let payload = encode_delegate_action(&sd.delegate_action).unwrap();
    sd.signature = key.sign(&payload).to_bytes().to_vec();
    sd.fee_action = fee_action;
    sd
}

const NEAR: u128 = 1_000_000_000_000_000_000_000_000;

fn chain_signature(path: &str, payload: Vec<u8>) -> Action {
    Action::ChainSignatureRequest {
        target_chain: "near".to_string(),
        derivation_path: path.to_string(),
        payload,
    }
}

#[test]
fn test_relay_meta_transaction_transfer() {
    let (mut contract, ctx) = contract_setup(10 * NEAR);
    let initial_gas_pool = contract.get_gas_pool();
    let signed_delegate = create_signed_delegate(accounts(1), &accounts(2), vec![transfer(NEAR)], None);
    let result = relay_meta_transaction(&mut contract, signed_delegate, &ctx).result;
    if let Err(e) = &result {
        panic!("Relay failed: {:?}", e);
    }
    assert!(result.is_ok());
    assert_eq!(contract.get_gas_pool(), initial_gas_pool - 29_000_000_000_000_000_000_000);
}

#[test]
fn test_relay_meta_transaction_with_fee() {
    let (mut contract, ctx) = contract_setup(10 * NEAR);
    let initial_gas_pool = contract.get_gas_pool();
    let signed_delegate = create_signed_delegate(
        accounts(1),
        &accounts(2),
        vec![transfer(NEAR)],
        Some(transfer(NEAR / 2)),
    );
    let result = relay_meta_transaction(&mut contract, signed_delegate, &ctx).result;
    if let Err(e) = &result {
        panic!("Relay failed: {:?}", e);
    }
    assert!(result.is_ok());
    assert_eq!(contract.get_gas_pool(), initial_gas_pool - (29_000_000_000_000_000_000_000 * 2));
}

#[test]
fn test_relay_meta_transaction_insufficient_gas() {
    let (mut contract, ctx) = contract_setup(NEAR / 2);
    let signed_delegate = create_signed_delegate(accounts(1), &accounts(2), vec![transfer(NEAR)], None);
    let result = relay_meta_transaction(&mut contract, signed_delegate, &ctx).result;
    assert!(matches!(result, Err(RelayerError::InsufficientGasPool)));
}

#[test]
fn test_relay_meta_transaction_unauthorized() {
    let (mut contract, ctx) = contract_setup(10 * NEAR);
    let signed_delegate = create_signed_delegate(accounts(3), &accounts(2), vec![transfer(NEAR)], None);
    let result = relay_meta_transaction(&mut contract, signed_delegate, &ctx).result;
    assert!(matches!(result, Err(RelayerError::Unauthorized)));
}

#[test]
fn test_relay_meta_transaction_function_call() {
    let (mut contract, ctx) = contract_setup(10 * NEAR);
    let initial_gas_pool = contract.get_gas_pool();
    let signed_delegate = create_signed_delegate(
        accounts(1),
        &accounts(2),
        vec![Action::FunctionCall {
            method_name: "test".to_string(),
            args: vec![1, 2, 3],
            gas: 50_000_000_000_000,
            deposit: 0,
        }],
        None,
    );
    let result = relay_meta_transaction(&mut contract, signed_delegate, &ctx).result;
    if let Err(e) = &result {
        panic!("Relay failed: {:?}", e);
    }
    assert!(result.is_ok());
    assert_eq!(contract.get_gas_pool(), initial_gas_pool - 29_000_000_000_000_000_000_000);
}

#[test]
fn test_relay_meta_transaction_chain_signature() {
    let (mut contract, ctx) = contract_setup(10 * NEAR);
    let initial_gas_pool = contract.get_gas_pool();
    let signed_delegate = create_signed_delegate(
        accounts(1),
        "mpc.near",
        vec![chain_signature("m/44'/60'/0'/0/0", vec![1, 2, 3])],
        None,
    );
    let result = relay_meta_transaction(&mut contract, signed_delegate, &ctx).result;
    if let Err(e) = &result {
        panic!("Relay failed: {:?}", e);
    }
    assert!(result.is_ok());
    assert_eq!(contract.get_gas_pool(), initial_gas_pool - 29_000_000_000_000_000_000_000);
}

#[test]
fn test_relay_meta_transactions_multiple_chain_signatures() {
    let (mut contract, ctx) = contract_setup(10 * NEAR);
    let initial_gas_pool = contract.get_gas_pool();
    let signed_delegates = vec![create_signed_delegate(
        accounts(1),
        "mpc.near",
        vec![chain_signature("m/44'/60'/0'/0/0", vec![1, 2, 3])],
        None,
    )];
    let result = relay_meta_transactions(&mut contract, signed_delegates, &ctx).result;
    if let Err(e) = &result {
        panic!("Relay failed: {:?}", e);
    }
    assert!(result.is_ok());
    assert_eq!(result.unwrap().len(), 1);
    assert_eq!(
        contract.get_gas_pool(),
        initial_gas_pool - 29_000_000_000_000_000_000_000,
        "Gas pool should decrease by cost of one action"
    );
}

#[test]
fn test_relay_meta_transactions_batch() {
    let (mut contract, ctx) = contract_setup(20 * NEAR);
    let initial_gas_pool = contract.get_gas_pool();
    let signed_delegates = vec![
        create_signed_delegate(accounts(1), &accounts(2), vec![transfer(NEAR)], None),
        create_signed_delegate(accounts(1), &accounts(3), vec![transfer(NEAR)], None),
    ];
    let result = relay_meta_transactions(&mut contract, signed_delegates, &ctx).result;
    if let Err(e) = &result {
        panic!("Batch relay failed: {:?}", e);
    }
    assert!(result.is_ok());
    assert_eq!(result.unwrap().len(), 2);
    assert_eq!(contract.get_gas_pool(), initial_gas_pool - (29_000_000_000_000_000_000_000 * 2));
}

#[test]
fn test_relay_chunked_meta_transactions() {
    let (mut contract, ctx) = contract_setup(20 * NEAR);
    let initial_gas_pool = contract.get_gas_pool();
    let signed_delegates = vec![
        create_signed_delegate(accounts(1), &accounts(2), vec![transfer(NEAR)], None),
        create_signed_delegate(accounts(1), &accounts(3), vec![transfer(NEAR)], None),
        create_signed_delegate(accounts(1), &accounts(4), vec![transfer(NEAR)], None),
        create_signed_delegate(accounts(1), &accounts(5), vec![transfer(NEAR)], None),
        create_signed_delegate(accounts(1), &accounts(2), vec![transfer(NEAR)], None),
    ];
    let result = relay_chunked_meta_transactions(&mut contract, signed_delegates, &ctx).result;
    if let Err(e) = &result {
        panic!("Chunked relay failed: {:?}", e);
    }
    assert!(result.is_ok());
    assert_eq!(result.unwrap().len(), 5);
    assert_eq!(contract.get_gas_pool(), initial_gas_pool - (29_000_000_000_000_000_000_000 * 5));
}

#[test]
fn test_relay_chunked_meta_transactions_with_chain_signatures() {
    let (mut contract, mut ctx) = contract_setup(20 * NEAR);
    ctx.prepaid_gas_tgas = 500;
    let initial_gas_pool = contract.get_gas_pool();
    let signed_delegates = vec![
        create_signed_delegate(accounts(1), "mpc.near", vec![chain_signature("m/44'/60'/0'/0/0", vec![1, 2, 3])], None),
        create_signed_delegate(accounts(1), "mpc.near", vec![chain_signature("m/44'/60'/0'/0/1", vec![4, 5, 6])], None),
    ];
    let result = relay_chunked_meta_transactions(&mut contract, signed_delegates, &ctx).result;
    if let Err(e) = &result {
        panic!("Chunked relay failed: {:?}", e);
    }
    assert!(result.is_ok());
    assert_eq!(result.unwrap().len(), 2);
    assert_eq!(contract.get_gas_pool(), initial_gas_pool - (29_000_000_000_000_000_000_000 * 2));
}

#[test]
fn relaying_keeps_the_gas_pool_reserve() {
    let mut relayer = setup();
    let ctx = context(&accounts(1));
    relayer.gas_pool = relayer.min_gas_pool + RELAY_COST - 1;
    let out = relay_meta_transaction(&mut relayer, signed(&accounts(1), vec![transfer(1)], 7), &ctx);
    assert!(matches!(out.result, Err(RelayerError::InsufficientGasPool)));
    relayer.gas_pool = relayer.min_gas_pool + RELAY_COST;
    let out = relay_meta_transaction(&mut relayer, signed(&accounts(1), vec![transfer(1)], 7), &ctx);
    assert!(out.result.is_ok());
    assert_eq!(relayer.gas_pool, relayer.min_gas_pool);
}

#[test]
fn test_handle_mpc_signature() {
    let (mut contract, ctx) = contract_setup(10 * NEAR);
    let initial_gas_pool = contract.get_gas_pool();
    let signed_delegate = create_signed_delegate(
        accounts(1),
        "mpc.near",
        vec![chain_signature("m/44'/60'/0'/0/0", vec![1, 2, 3])],
        None,
    );
    let result = relay_meta_transaction(&mut contract, signed_delegate, &ctx).result;
    if let Err(e) = &result {
        panic!("Relay failed: {:?}", e);
    }
    assert!(result.is_ok());
    assert_eq!(contract.get_gas_pool(), initial_gas_pool - 29_000_000_000_000_000_000_000);
}

#[test]
fn test_handle_bridge_result() {
    let (mut contract, ctx) = contract_setup(10 * NEAR);
    let initial_gas_pool = contract.get_gas_pool();
    let signed_delegate = create_signed_delegate(accounts(1), &accounts(2), vec![transfer(NEAR)], None);
    let result = relay_meta_transaction(&mut contract, signed_delegate, &ctx).result;
    if let Err(e) = &result {
        panic!("Relay failed: {:?}", e);
    }
    assert!(result.is_ok());
    assert_eq!(contract.get_gas_pool(), initial_gas_pool - 29_000_000_000_000_000_000_000);
}

#[test]
fn low_balance_refuses_a_batch() {
    let (mut contract, mut ctx) = contract_setup(10 * NEAR);
    ctx.account_balance = 3;
    let ds = vec![create_signed_delegate(accounts(1), &accounts(2), vec![transfer(NEAR)], None)];
    let out = relay_meta_transactions(&mut contract, ds, &ctx);
    assert!(matches!(out.result, Err(RelayerError::InsufficientBalance)));
    assert!(matches!(out.events.as_slice(), [RelayerEvent::LowBalance { balance: 3 }]));
    let ds = vec![create_signed_delegate(accounts(1), &accounts(2), vec![transfer(NEAR)], None)];
    let out = relay_chunked_meta_transactions(&mut contract, ds, &ctx);
    assert!(matches!(out.result, Err(RelayerError::InsufficientBalance)));
    assert_eq!(contract.get_gas_pool(), 10 * NEAR);
}
