use near_sdk::borsh;
use onsocial_relayer::errors::RelayerError;
use onsocial_relayer::events::RelayerEvent;
use onsocial_relayer::plan::{CallArgs, ReceiptAction};
use ed25519_dalek::{Signer, SigningKey};
use onsocial_relayer::borsh::encode_delegate_action;
use onsocial_relayer::sponsor::{
    decode_sponsor_args, sponsor_account, sponsor_account_signed, sponsor_account_with_registrar,
};
use onsocial_relayer::state::{Context, Relayer};
use onsocial_relayer::types::{Action, DelegateAction, PublicKey, SignatureScheme, SignedDelegateAction};

fn setup() -> Relayer {
    let mut relayer = Relayer::new(
        "manager.testnet".to_string(),
        "offload.testnet".to_string(),
        "auth.testnet".to_string(),
        "ft.testnet".to_string(),
        "relayer.testnet".to_string(),
    );
    relayer.gas_pool = 10_000_000_000_000_000_000_000_000;
    relayer
}

fn context(current: &str) -> Context {
    Context {
        current_account_id: current.to_string(),
        predecessor_account_id: "manager.testnet".to_string(),
        signer_account_id: "manager.testnet".to_string(),
        account_balance: 20_000_000_000_000_000_000_000_000,
        attached_deposit: 0,
        prepaid_gas_tgas: 300,
        used_gas_tgas: 10,
        block_timestamp: 1,
        block_timestamp_ms: 1,
    }
}

fn key() -> PublicKey {
    let mut data = vec![0u8];
    data.extend_from_slice(&[3u8; 32]);
    PublicKey { data }
}

fn sdk_key() -> near_sdk::PublicKey {
    near_sdk::PublicKey::from_parts(near_sdk::CurveType::ED25519, vec![3u8; 32]).unwrap()
}

fn amounts(plan: &onsocial_relayer::plan::PromisePlan) -> (String, u128, u128) {
    let creation = match &plan.receipts[0].actions[0] {
        ReceiptAction::FunctionCall { deposit, .. } => *deposit,
        other => panic!("unexpected action {:?}", other),
    };
    let funding = match &plan.receipts[1].actions[1] {
        ReceiptAction::Transfer { amount } => *amount,
        other => panic!("unexpected action {:?}", other),
    };
    (plan.receipts[0].receiver_id.clone(), funding, creation)
}

#[test]
fn testnet_account_is_created_through_testnet() {
    let mut relayer = setup();
    let out = sponsor_account_with_registrar(&mut relayer, "alice.testnet".to_string(), key(), true, Some(2), &context("relayer.testnet"));
    let plan = out.result.unwrap();
    assert_eq!(amounts(&plan), ("testnet".to_string(), 100_000_000_000_000_000_000_000, 1_820_000_000_000_000_000_000));
    match &plan.receipts[0].actions[0] {
        ReceiptAction::FunctionCall { call: CallArgs::Raw { method_name, args }, .. } => {
            assert_eq!(method_name, "create_account");
            let expected = borsh::to_vec(&("alice.testnet".to_string(), sdk_key())).unwrap();
            assert_eq!(args, &expected);
        }
        other => panic!("unexpected action {:?}", other),
    }
    assert_eq!(plan.receipts[1].receiver_id, "alice.testnet");
    assert!(matches!(&plan.receipts[1].actions[0], ReceiptAction::AddFullAccessKey { .. }));
    assert_eq!(plan.receipts[2].receiver_id, "auth.testnet");
    assert!(matches!(
        &plan.receipts[2].actions[0],
        ReceiptAction::FunctionCall { call: CallArgs::RegisterKey { expiration_days: Some(30), is_multi_sig: true, multi_sig_threshold: Some(2), .. }, .. }
    ));
    assert!(matches!(out.events.as_slice(), [RelayerEvent::AccountSponsored { account_id }] if account_id == "alice.testnet"));
}

#[test]
fn testnet_needs_the_testnet_suffix() {
    let mut relayer = setup();
    let out = sponsor_account_with_registrar(&mut relayer, "alice.near".to_string(), key(), false, None, &context("relayer.testnet"));
    assert!(matches!(out.result, Err(RelayerError::InvalidAccountId)));
}

#[test]
fn mainnet_funding_depends_on_the_name_length() {
    let mut relayer = setup();
    let ctx = context("relayer.near");
    let short = sponsor_account_with_registrar(&mut relayer, "bob.near".to_string(), key(), false, None, &ctx).result.unwrap();
    assert_eq!(amounts(&short), ("registrar.near".to_string(), 500_000_000_000_000_000_000_000, 50_000_000_000_000_000_000_000));
    let long = sponsor_account_with_registrar(&mut relayer, "abcdefghijklm.near".to_string(), key(), false, None, &ctx).result.unwrap();
    assert_eq!(amounts(&long), ("registrar.near".to_string(), 250_000_000_000_000_000_000_000, 25_000_000_000_000_000_000_000));
    let edge = sponsor_account_with_registrar(&mut relayer, "abcdefghijklmnop.near".to_string(), key(), false, None, &ctx);
    assert!(edge.result.is_ok());
    let too_long = sponsor_account_with_registrar(&mut relayer, "abcdefghijklmnopq.near".to_string(), key(), false, None, &ctx);
    assert!(matches!(too_long.result, Err(RelayerError::InvalidAccountId)));
    let too_short = sponsor_account_with_registrar(&mut relayer, "ab.near".to_string(), key(), false, None, &ctx);
    assert!(matches!(too_short.result, Err(RelayerError::InvalidAccountId)));
}

#[test]
fn sponsoring_stops_when_paused_or_poor() {
    let mut relayer = setup();
    relayer.paused = true;
    let out = sponsor_account_with_registrar(&mut relayer, "alice.testnet".to_string(), key(), false, None, &context("relayer.testnet"));
    assert!(matches!(out.result, Err(RelayerError::ContractPaused)));
    relayer.paused = false;
    let mut ctx = context("relayer.testnet");
    ctx.account_balance = 5;
    let out = sponsor_account_with_registrar(&mut relayer, "alice.testnet".to_string(), key(), false, None, &ctx);
    assert!(matches!(out.result, Err(RelayerError::InsufficientBalance)));
    assert!(matches!(out.events.as_slice(), [RelayerEvent::LowBalance { balance: 5 }]));
    assert_eq!(relayer.gas_pool, 10_000_000_000_000_000_000_000_000);
}

#[test]
fn sponsor_args_decode_what_borsh_writes() {
    let bytes = borsh::to_vec(&(
        near_sdk::AccountId::try_from("carol.testnet".to_string()).unwrap(),
        sdk_key(),
        true,
        Some(3u32),
    ))
    .unwrap();
    let args = decode_sponsor_args(&bytes).unwrap();
    assert_eq!(args.new_account_id, "carol.testnet");
    assert_eq!(args.public_key.data, key().data);
    assert!(args.is_multi_sig);
    assert_eq!(args.multi_sig_threshold, Some(3));
    let bytes = borsh::to_vec(&(
        near_sdk::AccountId::try_from("carol.testnet".to_string()).unwrap(),
        sdk_key(),
        false,
        None::<u32>,
    ))
    .unwrap();
    let args = decode_sponsor_args(&bytes).unwrap();
    assert!(!args.is_multi_sig);
    assert_eq!(args.multi_sig_threshold, None);
}

#[test]
fn sponsor_args_refuse_malformed_bytes() {
    let good = borsh::to_vec(&(
        near_sdk::AccountId::try_from("carol.testnet".to_string()).unwrap(),
        sdk_key(),
        true,
        None::<u32>,
    ))
    .unwrap();
    let mut trailing = good.clone();
    trailing.push(0);
    assert!(decode_sponsor_args(&trailing).is_none());
    let mut bad_flag = good.clone();
    let flag_at = good.len() - 2;
    bad_flag[flag_at] = 2;
    assert!(decode_sponsor_args(&bad_flag).is_none());
    let mut bad_tag = good.clone();
    let tag_at = good.len() - 1;
    bad_tag[tag_at] = 2;
    assert!(decode_sponsor_args(&bad_tag).is_none());
    let bad_id = borsh::to_vec(&("Carol".to_string(), sdk_key(), true, None::<u32>)).unwrap();
    assert!(decode_sponsor_args(&bad_id).is_none());
    let bad_key = borsh::to_vec(&("carol.testnet".to_string(), vec![0u8; 10], true, None::<u32>)).unwrap();
    assert!(decode_sponsor_args(&bad_key).is_none());
    let bad_utf8 = borsh::to_vec(&(vec![0xffu8, 0xfe], sdk_key(), true, None::<u32>)).unwrap();
    assert!(decode_sponsor_args(&bad_utf8).is_none());
    assert!(decode_sponsor_args(&good[..good.len() - 1].to_vec()).is_none());
    assert!(decode_sponsor_args(&vec![]).is_none());
}

#[test]
fn sponsor_account_reads_its_arguments() {
    let mut relayer = setup();
    let bytes = borsh::to_vec(&(
        near_sdk::AccountId::try_from("dave.testnet".to_string()).unwrap(),
        sdk_key(),
        false,
        None::<u32>,
    ))
    .unwrap();
    let out = sponsor_account(&mut relayer, bytes, &context("relayer.testnet"));
    assert!(out.result.is_ok());
    assert_eq!(relayer.gas_pool, 10_000_000_000_000_000_000_000_000 - relayer.sponsor_amount);
    let out = sponsor_account(&mut relayer, vec![1, 2, 3], &context("relayer.testnet"));
    assert!(matches!(out.result, Err(RelayerError::InvalidNonce)));
    assert!(out.events.is_empty());
}

fn accounts(index: u32) -> String {
    format!("account{}.testnet", index)
}

#[test]
fn test_sponsor_account_signed_unauthorized() {
    let mut relayer = setup();
    let mut ctx = context("alice.near");
    ctx.predecessor_account_id = accounts(3);
    ctx.signer_account_id = "bob.near".to_string();
    ctx.attached_deposit = 10_000_000_000_000_000_000_000_000;
    onsocial_relayer::balance::deposit_gas_pool(&mut relayer, &ctx).unwrap();
    let key = SigningKey::from_bytes(&[5; 32]);
    let mut data = vec![0u8];
    data.extend_from_slice(&[3u8; 32]);
    let delegate_action = DelegateAction {
        sender_id: accounts(4),
        receiver_id: "testuser4.testnet".to_string(),
        actions: vec![Action::AddKey {
            public_key: PublicKey { data },
            allowance: None,
            receiver_id: "testuser4.testnet".to_string(),
            method_names: vec![],
        }],
        nonce: 1,
        max_block_height: 1000,
    };
    let payload = encode_delegate_action(&delegate_action).unwrap();
    let mut pk = vec![0u8];
    pk.extend_from_slice(&key.verifying_key().to_bytes());
    let signed_delegate = SignedDelegateAction {
        delegate_action,
        signature: key.sign(&payload).to_bytes().to_vec(),
        public_key: PublicKey { data: pk },
        session_nonce: 1,
        scheme: SignatureScheme::Ed25519,
        fee_action: None,
        multi_signatures: None,
    };
    let result = sponsor_account_signed(&mut relayer, signed_delegate, &ctx).result;
    assert!(matches!(result, Err(RelayerError::Unauthorized)), "Should fail with unauthorized signer");
}

fn contract_setup() -> (Relayer, Context) {
    let relayer = Relayer::new(
        accounts(0),
        accounts(2),
        accounts(1),
        "ft.testnet".to_string(),
        "relayer.testnet".to_string(),
    );
    let ctx = Context {
        current_account_id: "relayer.testnet".to_string(),
        predecessor_account_id: accounts(0),
        signer_account_id: accounts(0),
        account_balance: 100_000_000_000_000_000_000_000_000,
        attached_deposit: 0,
        prepaid_gas_tgas: 300,
        used_gas_tgas: 10,
        block_timestamp: 1,
        block_timestamp_ms: 1,
    };
    (relayer, ctx)
}

fn parsed_key(text: &str) -> PublicKey {
    let k: near_sdk::PublicKey = text.parse().unwrap();
    PublicKey { data: k.as_bytes().to_vec() }
}

fn sponsor_args(account: &str, key: &str) -> Vec<u8> {
    let k: near_sdk::PublicKey = key.parse().unwrap();
    borsh::to_vec(&(near_sdk::AccountId::try_from(account.to_string()).unwrap(), k, false, None::<u32>)).unwrap()
}

fn signed_by(sender: String, receiver: &str, actions: Vec<Action>) -> SignedDelegateAction {
    let key = SigningKey::from_bytes(&[9; 32]);
    let delegate_action = DelegateAction {
        sender_id: sender,
        receiver_id: receiver.to_string(),
        actions,
        nonce: 1,
        max_block_height: 1000,
    };
    let payload = encode_delegate_action(&delegate_action).unwrap();
    let mut pk = vec![0u8];
    pk.extend_from_slice(&key.verifying_key().to_bytes());
    SignedDelegateAction {
        delegate_action,
        signature: key.sign(&payload).to_bytes().to_vec(),
        public_key: PublicKey { data: pk },
        session_nonce: 1,
        scheme: SignatureScheme::Ed25519,
        fee_action: None,
        multi_signatures: None,
    }
}

fn add_key(receiver: &str) -> Action {
    Action::AddKey {
        public_key: parsed_key("ed25519:DP8d4JWrG8TFvQz83EJSVphUTEpQ41mzqPMyZMigCN17"),
        allowance: None,
        receiver_id: receiver.to_string(),
        method_names: vec![],
    }
}

#[test]
fn test_sponsor_account() {
    let (mut relayer, mut ctx) = contract_setup();
    ctx.predecessor_account_id = accounts(1);
    ctx.attached_deposit = 10_000_000_000_000_000_000_000_000;
    onsocial_relayer::balance::deposit_gas_pool(&mut relayer, &ctx).unwrap();
    let initial_gas_pool = relayer.gas_pool;
    let args = sponsor_args("testuser1.testnet", "ed25519:DP8d4JWrG8TFvQz83EJSVphUTEpQ41mzqPMyZMigCN17");
    let result = sponsor_account(&mut relayer, args, &ctx).result;
    assert!(result.is_ok(), "Expected sponsor_account to succeed, got {:?}", result.err());
    assert_eq!(relayer.gas_pool, initial_gas_pool - relayer.sponsor_amount);
}

#[test]
fn test_sponsor_account_insufficient_gas() {
    let (mut relayer, mut ctx) = contract_setup();
    ctx.predecessor_account_id = accounts(1);
    let result = sponsor_account_with_registrar(
        &mut relayer,
        "testuser.testnet".to_string(),
        parsed_key("ed25519:8fWHEecB2iXjZ75kMYG34M2DSELK9nQ31K3vQ3Wy4nqW"),
        false,
        None,
        &ctx,
    )
    .result;
    assert!(matches!(result, Err(RelayerError::InsufficientGasPool)));
}

#[test]
fn test_sponsor_account_unauthorized() {
    let (mut relayer, mut ctx) = contract_setup();
    ctx.predecessor_account_id = accounts(3);
    ctx.attached_deposit = 10_000_000_000_000_000_000_000_000;
    onsocial_relayer::balance::deposit_gas_pool(&mut relayer, &ctx).unwrap();
    let result = sponsor_account_with_registrar(
        &mut relayer,
        "testuser.testnet".to_string(),
        parsed_key("ed25519:8fWHEecB2iXjZ75kMYG34M2DSELK9nQ31K3vQ3Wy4nqW"),
        false,
        None,
        &ctx,
    )
    .result;
    assert!(matches!(result, Err(RelayerError::Unauthorized)));
}

#[test]
fn test_sponsor_account_signed_success() {
    let (mut relayer, mut ctx) = contract_setup();
    ctx.predecessor_account_id = accounts(3);
    ctx.signer_account_id = accounts(1);
    ctx.attached_deposit = 10_000_000_000_000_000_000_000_000;
    onsocial_relayer::balance::deposit_gas_pool(&mut relayer, &ctx).unwrap();
    let initial_gas_pool = relayer.gas_pool;
    let signed_delegate = signed_by(accounts(1), "testuser3.testnet", vec![add_key("testuser3.testnet")]);
    let result = sponsor_account_signed(&mut relayer, signed_delegate, &ctx).result;
    assert!(result.is_ok(), "sponsor_account_signed should succeed: {:?}", result.err());
    assert_eq!(relayer.gas_pool, initial_gas_pool - relayer.sponsor_amount);
}

#[test]
fn test_sponsor_account_signed_invalid_action() {
    let (mut relayer, mut ctx) = contract_setup();
    ctx.predecessor_account_id = accounts(3);
    ctx.signer_account_id = accounts(1);
    ctx.attached_deposit = 10_000_000_000_000_000_000_000_000;
    onsocial_relayer::balance::deposit_gas_pool(&mut relayer, &ctx).unwrap();
    let signed_delegate = signed_by(accounts(1), &accounts(2), vec![Action::Transfer { deposit: 1_000_000_000_000_000_000_000_000 }]);
    let result = sponsor_account_signed(&mut relayer, signed_delegate, &ctx).result;
    assert!(matches!(result, Err(RelayerError::InvalidNonce)), "Should fail with invalid action");
}

#[test]
fn test_sponsor_account_signed_insufficient_gas() {
    let (mut relayer, mut ctx) = contract_setup();
    ctx.predecessor_account_id = accounts(3);
    ctx.signer_account_id = accounts(1);
    let signed_delegate = signed_by(accounts(1), "testuser5.testnet", vec![add_key("testuser5.testnet")]);
    let result = sponsor_account_signed(&mut relayer, signed_delegate, &ctx).result;
    assert!(matches!(result, Err(RelayerError::InsufficientGasPool)), "Should fail with insufficient gas");
}
