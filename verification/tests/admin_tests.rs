use onsocial_relayer::admin::{
    add_chain_mpc_mapping, pause, register_existing_account, remove_chain_mpc_mapping, remove_key,
    set_auth_contract, set_base_fee, set_chunk_size, set_cross_contract_gas,
    set_ft_wrapper_contract, set_manager, set_max_balance, set_max_gas_pool, set_migration_gas,
    set_min_balance, set_min_gas_pool,
    set_offload_recipient, set_omni_locker_contract, set_sponsor_amount, set_sponsor_gas, unpause,
};
use onsocial_relayer::balance::deposit_gas_pool;
use onsocial_relayer::relay::relay_meta_transaction;
use onsocial_relayer::state::Context;
use onsocial_relayer::types::{Action, DelegateAction, SignatureScheme, SignedDelegateAction};
use onsocial_relayer::errors::RelayerError;
use onsocial_relayer::events::RelayerEvent;
use onsocial_relayer::plan::{CallArgs, ReceiptAction};
use onsocial_relayer::state::Relayer;
use onsocial_relayer::types::PublicKey;

fn accounts(index: u32) -> String {
    format!("account{}.testnet", index)
}

fn setup() -> Relayer {
    Relayer::new(
        accounts(0),
        accounts(2),
        "auth.testnet".to_string(),
        "ft.testnet".to_string(),
        "relayer.testnet".to_string(),
    )
}

fn ed25519_key(fill: u8) -> PublicKey {
    let mut data = vec![0u8];
    data.extend_from_slice(&[fill; 32]);
    PublicKey { data }
}

#[test]
fn test_set_offload_recipient() {
    let mut relayer = setup();
    let result = set_offload_recipient(&mut relayer, &accounts(0), accounts(3));
    assert!(result.is_ok());
    assert_eq!(relayer.offload_recipient, accounts(3));
}

#[test]
fn test_set_sponsor_amount() {
    let mut relayer = setup();
    let result = set_sponsor_amount(&mut relayer, &accounts(0), 200_000_000_000_000_000_000_000);
    assert!(result.is_ok());
    assert_eq!(relayer.sponsor_amount, 200_000_000_000_000_000_000_000);
}

#[test]
fn test_set_sponsor_amount_too_low() {
    let mut relayer = setup();
    let result = set_sponsor_amount(&mut relayer, &accounts(0), 5_000_000_000_000_000_000_000);
    assert!(matches!(result, Err(RelayerError::AmountTooLow)));
}

#[test]
fn test_add_chain_mpc_mapping() {
    let mut relayer = setup();
    let result = add_chain_mpc_mapping(&mut relayer, &accounts(0), "ethereum".to_string(), accounts(3));
    assert!(result.is_ok());
    assert_eq!(relayer.chain_mpc_mapping.get(&"ethereum".to_string()), Some(&accounts(3)));
}

#[test]
fn test_remove_chain_mpc_mapping() {
    let mut relayer = setup();
    let result = remove_chain_mpc_mapping(&mut relayer, &accounts(0), "near".to_string());
    assert!(result.is_ok());
    assert!(relayer.chain_mpc_mapping.get(&"near".to_string()).is_none());
}

#[test]
fn test_set_chunk_size() {
    let mut relayer = setup();
    let result = set_chunk_size(&mut relayer, &accounts(0), 10);
    assert!(result.is_ok());
    assert_eq!(relayer.chunk_size, 10);
}

#[test]
fn test_set_chunk_size_invalid() {
    let mut relayer = setup();
    let result = set_chunk_size(&mut relayer, &accounts(0), 0);
    assert!(matches!(result, Err(RelayerError::AmountTooLow)));
}

#[test]
fn chunk_size_bounds() {
    let mut relayer = setup();
    assert!(matches!(set_chunk_size(&mut relayer, &accounts(0), 1), Ok(RelayerEvent::ChunkSizeUpdated { new_size: 1 })));
    assert_eq!(relayer.chunk_size, 1);
    assert!(set_chunk_size(&mut relayer, &accounts(0), 5).is_ok());
    assert_eq!(relayer.chunk_size, 5);
    assert!(matches!(set_chunk_size(&mut relayer, &accounts(0), 11), Err(RelayerError::AmountTooLow)));
    assert_eq!(relayer.chunk_size, 5);
}

#[test]
fn only_the_manager_changes_configuration() {
    let mut relayer = setup();
    let stranger = accounts(7);
    assert!(matches!(set_offload_recipient(&mut relayer, &stranger, accounts(3)), Err(RelayerError::Unauthorized)));
    assert!(matches!(set_sponsor_amount(&mut relayer, &stranger, 20_000_000_000_000_000_000_000), Err(RelayerError::Unauthorized)));
    assert!(matches!(set_sponsor_gas(&mut relayer, &stranger, 60_000_000_000_000), Err(RelayerError::Unauthorized)));
    assert!(matches!(set_cross_contract_gas(&mut relayer, &stranger, 20_000_000_000_000), Err(RelayerError::Unauthorized)));
    assert!(matches!(set_migration_gas(&mut relayer, &stranger, 20_000_000_000_000), Err(RelayerError::Unauthorized)));
    assert!(matches!(set_chunk_size(&mut relayer, &stranger, 2), Err(RelayerError::Unauthorized)));
    assert!(matches!(set_auth_contract(&mut relayer, &stranger, accounts(4)), Err(RelayerError::Unauthorized)));
    assert!(matches!(set_ft_wrapper_contract(&mut relayer, &stranger, accounts(4)), Err(RelayerError::Unauthorized)));
    assert!(matches!(set_omni_locker_contract(&mut relayer, &stranger, accounts(4)), Err(RelayerError::Unauthorized)));
    assert!(matches!(set_min_balance(&mut relayer, &stranger, 1), Err(RelayerError::Unauthorized)));
    assert!(matches!(set_max_balance(&mut relayer, &stranger, u128::MAX), Err(RelayerError::Unauthorized)));
    assert!(matches!(set_base_fee(&mut relayer, &stranger, 0, None), Err(RelayerError::Unauthorized)));
    assert!(matches!(set_manager(&mut relayer, &stranger, stranger.clone(), 5), Err(RelayerError::Unauthorized)));
    assert!(matches!(add_chain_mpc_mapping(&mut relayer, &stranger, "eth".to_string(), accounts(4)), Err(RelayerError::Unauthorized)));
    assert!(matches!(remove_chain_mpc_mapping(&mut relayer, &stranger, "eth".to_string()), Err(RelayerError::Unauthorized)));
    assert_eq!(relayer.offload_recipient, accounts(2));
    assert_eq!(relayer.sponsor_amount, 100_000_000_000_000_000_000_000);
    assert_eq!(relayer.chunk_size, 5);
    assert_eq!(relayer.manager, accounts(0));
    assert_eq!(relayer.auth_contract, "auth.testnet");
    assert_eq!(relayer.base_fee, 100_000_000_000_000_000_000);
}

#[test]
fn gas_setters_respect_their_ranges() {
    let mut relayer = setup();
    let m = accounts(0);
    assert!(matches!(set_sponsor_gas(&mut relayer, &m, 49_999_999_999_999), Err(RelayerError::AmountTooLow)));
    assert!(matches!(set_sponsor_gas(&mut relayer, &m, 300_000_000_000_001), Err(RelayerError::AmountTooLow)));
    assert!(matches!(set_sponsor_gas(&mut relayer, &m, 50_000_000_000_000), Ok(RelayerEvent::SponsorGasUpdated { new_gas: 50_000_000_000_000 })));
    assert_eq!(relayer.sponsor_gas, 50_000_000_000_000);
    assert!(matches!(set_cross_contract_gas(&mut relayer, &m, 14_999_999_999_999), Err(RelayerError::AmountTooLow)));
    assert!(matches!(set_cross_contract_gas(&mut relayer, &m, 100_000_000_000_001), Err(RelayerError::AmountTooLow)));
    assert!(set_cross_contract_gas(&mut relayer, &m, 100_000_000_000_000).is_ok());
    assert_eq!(relayer.cross_contract_gas, 100_000_000_000_000);
    assert!(matches!(set_migration_gas(&mut relayer, &m, 200_000_000_000_001), Err(RelayerError::AmountTooLow)));
    assert!(set_migration_gas(&mut relayer, &m, 15_000_000_000_000).is_ok());
    assert_eq!(relayer.migration_gas, 15_000_000_000_000);
}

#[test]
fn balance_limits_stay_ordered() {
    let mut relayer = setup();
    let m = accounts(0);
    let max = relayer.max_balance;
    assert!(matches!(set_min_balance(&mut relayer, &m, max + 1), Err(RelayerError::AmountTooLow)));
    assert!(set_min_balance(&mut relayer, &m, max).is_ok());
    assert_eq!(relayer.min_balance, max);
    assert!(matches!(set_max_balance(&mut relayer, &m, max - 1), Err(RelayerError::AmountTooLow)));
    assert!(set_max_balance(&mut relayer, &m, max + 5).is_ok());
    assert!(relayer.min_balance <= relayer.max_balance);
}

#[test]
fn base_fee_rules() {
    let mut relayer = setup();
    let m = accounts(0);
    assert!(matches!(set_base_fee(&mut relayer, &m, 200_000_000_000_000_000_000, None), Err(RelayerError::InsufficientSignatures)));
    assert!(matches!(set_base_fee(&mut relayer, &m, 200_000_000_000_000_000_000, Some(vec![vec![1]])), Err(RelayerError::InsufficientSignatures)));
    assert!(matches!(set_base_fee(&mut relayer, &m, 99_999_999_999_999_999_999, Some(vec![vec![1], vec![2]])), Err(RelayerError::FeeTooLow)));
    assert!(set_base_fee(&mut relayer, &m, 100_000_000_000_000_000_000, Some(vec![vec![1], vec![2]])).is_ok());
    assert!(set_base_fee(&mut relayer, &m, 0, None).is_ok());
    assert_eq!(relayer.base_fee, 0);
}

#[test]
fn manager_hand_over() {
    let mut relayer = setup();
    let ev = set_manager(&mut relayer, &accounts(0), accounts(5), 1234).unwrap();
    match ev {
        RelayerEvent::ManagerChanged { old_manager, new_manager, timestamp } => {
            assert_eq!(old_manager, accounts(0));
            assert_eq!(new_manager, accounts(5));
            assert_eq!(timestamp, 1234);
        }
        other => panic!("unexpected event {:?}", other),
    }
    assert!(matches!(set_chunk_size(&mut relayer, &accounts(0), 2), Err(RelayerError::Unauthorized)));
    assert!(set_chunk_size(&mut relayer, &accounts(5), 2).is_ok());
}

#[test]
fn mapping_read_after_write() {
    let mut relayer = setup();
    let m = accounts(0);
    add_chain_mpc_mapping(&mut relayer, &m, "eth".to_string(), "a.testnet".to_string()).unwrap();
    add_chain_mpc_mapping(&mut relayer, &m, "eth".to_string(), "b.testnet".to_string()).unwrap();
    assert_eq!(relayer.chain_mpc_mapping.get(&"eth".to_string()), Some(&"b.testnet".to_string()));
    remove_chain_mpc_mapping(&mut relayer, &m, "eth".to_string()).unwrap();
    assert!(!relayer.chain_mpc_mapping.contains_key(&"eth".to_string()));
}

#[test]
fn register_existing_account_checks_caller_and_key() {
    let relayer = setup();
    let key = ed25519_key(9);
    assert!(matches!(
        register_existing_account(&relayer, &accounts(1), accounts(3), ed25519_key(9), None, false, None),
        Err(RelayerError::Unauthorized)
    ));
    let secp = PublicKey { data: vec![1u8; 65] };
    assert!(matches!(
        register_existing_account(&relayer, &accounts(3), accounts(3), secp, None, false, None),
        Err(RelayerError::InvalidSignature)
    ));
    let (plan, event) =
        register_existing_account(&relayer, &accounts(3), accounts(3), key, Some(7), true, Some(2)).unwrap();
    assert_eq!(plan.receipts.len(), 1);
    assert_eq!(plan.receipts[0].receiver_id, "auth.testnet");
    match &plan.receipts[0].actions[0] {
        ReceiptAction::FunctionCall { call: CallArgs::RegisterKey { account_id, expiration_days, is_multi_sig, multi_sig_threshold, .. }, deposit, static_gas } => {
            assert_eq!(account_id, &accounts(3));
            assert_eq!(*expiration_days, Some(7));
            assert!(*is_multi_sig);
            assert_eq!(*multi_sig_threshold, Some(2));
            assert_eq!(*deposit, 0);
            assert_eq!(*static_gas, relayer.cross_contract_gas);
        }
        other => panic!("unexpected action {:?}", other),
    }
    match event {
        RelayerEvent::AuthAdded { auth_account, key_hash } => {
            assert_eq!(auth_account, accounts(3));
            assert_eq!(key_hash.len(), 64);
            assert!(key_hash.chars().all(|c| c.is_ascii_hexdigit() && !c.is_ascii_uppercase()));
        }
        other => panic!("unexpected event {:?}", other),
    }
}

#[test]
fn key_hash_is_hex_of_sha256() {
    let relayer = setup();
    let empty_key = PublicKey { data: vec![] };
    let (_, event) = remove_key(&relayer, &accounts(3), accounts(3), empty_key).unwrap();
    match event {
        RelayerEvent::AuthRemoved { key_hash, .. } => assert_eq!(
            key_hash,
            "e3b0c44298fc1c149afbf4c8996fb92427ae41e4649b934ca495991b7852b855"
        ),
        other => panic!("unexpected event {:?}", other),
    }
    assert!(matches!(remove_key(&relayer, &accounts(1), accounts(3), ed25519_key(1)), Err(RelayerError::Unauthorized)));
}

fn context(deposit: u128) -> Context {
    Context {
        current_account_id: "relayer.testnet".to_string(),
        predecessor_account_id: accounts(0),
        signer_account_id: accounts(1),
        account_balance: 20_000_000_000_000_000_000_000_000,
        attached_deposit: deposit,
        prepaid_gas_tgas: 300,
        used_gas_tgas: 10,
        block_timestamp: 1,
        block_timestamp_ms: 1,
    }
}

fn unsigned_transfer(sender: String) -> SignedDelegateAction {
    SignedDelegateAction {
        delegate_action: DelegateAction {
            sender_id: sender,
            receiver_id: accounts(2),
            actions: vec![Action::Transfer { deposit: 1_000_000_000_000_000_000_000_000 }],
            nonce: 1,
            max_block_height: 1000,
        },
        signature: vec![0; 64],
        public_key: ed25519_key(1),
        session_nonce: 1,
        scheme: SignatureScheme::Ed25519,
        fee_action: None,
        multi_signatures: None,
    }
}

#[test]
fn test_pause_and_unpause() {
    let mut relayer = setup();
    assert_eq!(relayer.is_paused(), false, "Contract should start unpaused");
    let result = pause(&mut relayer, &accounts(0));
    assert!(result.is_ok(), "Pause should succeed for admin");
    assert_eq!(relayer.is_paused(), true, "Contract should be paused");
    let ctx = context(5_000_000_000_000_000_000_000_000);
    let deposit_result = deposit_gas_pool(&mut relayer, &ctx);
    assert!(matches!(deposit_result, Err(RelayerError::ContractPaused)), "Deposit should fail when paused");
    let relay_result = relay_meta_transaction(&mut relayer, unsigned_transfer(accounts(1)), &ctx).result;
    assert!(matches!(relay_result, Err(RelayerError::ContractPaused)), "Relay should fail when paused");
    let unpause_result = unpause(&mut relayer, &accounts(0));
    assert!(unpause_result.is_ok(), "Unpause should succeed for admin");
    assert_eq!(relayer.is_paused(), false, "Contract should be unpaused");
    let deposit_result = deposit_gas_pool(&mut relayer, &ctx);
    assert!(deposit_result.is_ok(), "Deposit should succeed after unpause");
}

#[test]
fn test_pause_unauthorized() {
    let mut relayer = setup();
    let result = pause(&mut relayer, &accounts(3));
    assert!(matches!(result, Err(RelayerError::Unauthorized)), "Non-admin should not be able to pause");
    assert_eq!(relayer.is_paused(), false, "Contract should remain unpaused");
}

#[test]
fn test_unpause_unauthorized() {
    let mut relayer = setup();
    pause(&mut relayer, &accounts(0)).unwrap();
    let result = unpause(&mut relayer, &accounts(3));
    assert!(matches!(result, Err(RelayerError::Unauthorized)), "Non-admin should not be able to unpause");
    assert_eq!(relayer.is_paused(), true, "Contract should remain paused");
}

#[test]
fn test_pause_already_paused() {
    let mut relayer = setup();
    pause(&mut relayer, &accounts(0)).unwrap();
    let result = pause(&mut relayer, &accounts(0));
    assert!(result.is_ok(), "Pausing an already paused contract should be a no-op");
    assert_eq!(relayer.is_paused(), true, "Contract should still be paused");
}

#[test]
fn test_unpause_already_unpaused() {
    let mut relayer = setup();
    let result = unpause(&mut relayer, &accounts(0));
    assert!(result.is_ok(), "Unpausing an already unpaused contract should be a no-op");
    assert_eq!(relayer.is_paused(), false, "Contract should still be unpaused");
}

#[test]
fn test_set_max_gas_pool() {
    let mut relayer = setup();
    let result = set_max_gas_pool(&mut relayer, &accounts(0), 600_000_000_000_000_000_000_000_000);
    assert!(result.is_ok());
    assert_eq!(relayer.max_gas_pool, 600_000_000_000_000_000_000_000_000);
}

#[test]
fn test_set_max_gas_pool_too_low() {
    let mut relayer = setup();
    let result = set_max_gas_pool(&mut relayer, &accounts(0), 500_000_000_000_000_000_000_000);
    assert!(matches!(result, Err(RelayerError::AmountTooLow)));
}

#[test]
fn test_set_min_gas_pool() {
    let mut relayer = setup();
    let result = set_min_gas_pool(&mut relayer, &accounts(0), 2_000_000_000_000_000_000_000_000);
    assert!(result.is_ok());
    assert_eq!(relayer.min_gas_pool, 2_000_000_000_000_000_000_000_000);
}

#[test]
fn gas_pool_limits_stay_ordered_and_managed() {
    let mut relayer = setup();
    assert!(matches!(set_min_gas_pool(&mut relayer, &accounts(7), 1), Err(RelayerError::Unauthorized)));
    assert!(matches!(set_max_gas_pool(&mut relayer, &accounts(7), u128::MAX), Err(RelayerError::Unauthorized)));
    let too_high = relayer.max_gas_pool + 1;
    assert!(matches!(set_min_gas_pool(&mut relayer, &accounts(0), too_high), Err(RelayerError::AmountTooLow)));
    assert_eq!(relayer.min_gas_pool, 1_000_000_000_000_000_000_000_000);
}

#[test]
fn test_view_methods() {
    let mut contract = setup();
    let ctx = context(5_000_000_000_000_000_000_000_000);
    deposit_gas_pool(&mut contract, &ctx).unwrap();
    assert_eq!(contract.get_gas_pool(), 5_000_000_000_000_000_000_000_000);
    assert_eq!(contract.get_min_gas_pool(), 1_000_000_000_000_000_000_000_000);
    assert_eq!(contract.get_sponsor_amount(), 100_000_000_000_000_000_000_000);
    assert_eq!(contract.get_chunk_size(), 5);
    assert_eq!(contract.version, "1.0", "Version should be 1.0");
}
