//! Configuration changes. All but the key operations are the manager's alone;
//! a refused change leaves the relayer as it was.
use vstd::prelude::*;
use crate::errors::RelayerError;
use crate::events::RelayerEvent;
use crate::plan::{CallArgs, CallArgsV, PromisePlan, call, call_receipt};
use crate::state::Relayer;
use crate::types::{PublicKey, is_ed25519_key};
use crate::crypto::{sha256, sha256_digest};
use crate::text::{hex_encode, hex_lower};

verus! {

/// The relayer's manager is `caller`.
pub open spec fn managed_by(r: Relayer, caller: Seq<char>) -> bool {
    r.manager@ == caller
}

/// The hash the relayer reports for a key: lowercase hex of the SHA-256 of
/// its bytes.
pub open spec fn key_hash_of(key: Seq<u8>) -> Seq<char> {
    hex_lower(sha256_digest(key))
}

fn key_hash(public_key: &PublicKey) -> (r: String)
    ensures
        r@ == key_hash_of(public_key@),
{
    let digest = sha256(public_key.data.as_slice());
    hex_encode(digest.as_slice())
}

/// Registers a key for `account_id` with the auth contract. Only the account
/// itself may do so, and only with an ed25519 key.
pub fn register_existing_account(
    relayer: &Relayer,
    caller: &String,
    account_id: String,
    public_key: PublicKey,
    expiration_days: Option<u32>,
    is_multi_sig: bool,
    multi_sig_threshold: Option<u32>,
) -> (r: Result<(PromisePlan, RelayerEvent), RelayerError>)
    ensures
        caller@ != account_id@ ==> r == Err::<(PromisePlan, RelayerEvent), _>(
            RelayerError::Unauthorized,
        ),
        caller@ == account_id@ && !is_ed25519_key(public_key@) ==> r == Err::<
            (PromisePlan, RelayerEvent),
            _,
        >(RelayerError::InvalidSignature),
        caller@ == account_id@ && is_ed25519_key(public_key@) ==> ({
            &&& r matches Ok((plan, event))
            &&& plan@ == seq![
            call_receipt(
                relayer.auth_contract@,
                CallArgsV::RegisterKey {
                    account_id: account_id@,
                    public_key: public_key@,
                    expiration_days,
                    is_multi_sig,
                    multi_sig_threshold,
                },
                0,
                relayer.cross_contract_gas,
            ),
            ]
            &&& event matches RelayerEvent::AuthAdded { auth_account, key_hash }
            &&& auth_account@ == account_id@
            &&& key_hash@ == key_hash_of(public_key@)
        }),
{
    if *caller != account_id {
        return Err(RelayerError::Unauthorized);
    }
    if public_key.data.len() != 33 || public_key.data[0] != 0 {
        return Err(RelayerError::InvalidSignature);
    }
    let hash = key_hash(&public_key);
    let mut plan = PromisePlan::new();
    plan.enqueue(
        call(
            relayer.auth_contract.clone(),
            CallArgs::RegisterKey {
                account_id: account_id.clone(),
                public_key,
                expiration_days,
                is_multi_sig,
                multi_sig_threshold,
            },
            0,
            relayer.cross_contract_gas,
        ),
    );
    assert(plan@ =~= seq![
        call_receipt(
            relayer.auth_contract@,
            CallArgsV::RegisterKey {
                account_id: account_id@,
                public_key: public_key@,
                expiration_days,
                is_multi_sig,
                multi_sig_threshold,
            },
            0,
            relayer.cross_contract_gas,
        ),
    ]);
    Ok((plan, RelayerEvent::AuthAdded { auth_account: account_id, key_hash: hash }))
}

/// Asks the auth contract to drop a key of `account_id`. Only the account
/// itself may do so.
pub fn remove_key(relayer: &Relayer, caller: &String, account_id: String, public_key: PublicKey) -> (r:
    Result<(PromisePlan, RelayerEvent), RelayerError>)
    ensures
        caller@ != account_id@ ==> r == Err::<(PromisePlan, RelayerEvent), _>(
            RelayerError::Unauthorized,
        ),
        caller@ == account_id@ ==> ({
            &&& r matches Ok((plan, event))
            &&& plan@ == seq![
            call_receipt(
                relayer.auth_contract@,
                CallArgsV::RemoveKey { account_id: account_id@, public_key: public_key@ },
                0,
                relayer.cross_contract_gas,
            ),
            ]
            &&& event matches RelayerEvent::AuthRemoved { auth_account, key_hash }
            &&& auth_account@ == account_id@
            &&& key_hash@ == key_hash_of(public_key@)
        }),
{
    if *caller != account_id {
        return Err(RelayerError::Unauthorized);
    }
    let hash = key_hash(&public_key);
    let mut plan = PromisePlan::new();
    plan.enqueue(
        call(
            relayer.auth_contract.clone(),
            CallArgs::RemoveKey { account_id: account_id.clone(), public_key },
            0,
            relayer.cross_contract_gas,
        ),
    );
    assert(plan@ =~= seq![
        call_receipt(
            relayer.auth_contract@,
            CallArgsV::RemoveKey { account_id: account_id@, public_key: public_key@ },
            0,
            relayer.cross_contract_gas,
        ),
    ]);
    Ok((plan, RelayerEvent::AuthRemoved { auth_account: account_id, key_hash: hash }))
}

/// Sets the gas for cross-contract calls: 15 to 100 TGas (in gas units).
pub fn set_cross_contract_gas(relayer: &mut Relayer, caller: &String, new_gas: u64) -> (r: Result<
    RelayerEvent,
    RelayerError,
>)
    ensures
        !managed_by(*old(relayer), caller@) ==> r == Err::<RelayerEvent, _>(
            RelayerError::Unauthorized,
        ) && *final(relayer) == *old(relayer),
        managed_by(*old(relayer), caller@) && !(15_000_000_000_000 <= new_gas
            <= 100_000_000_000_000) ==> r == Err::<RelayerEvent, _>(RelayerError::AmountTooLow)
            && *final(relayer) == *old(relayer),
        managed_by(*old(relayer), caller@) && 15_000_000_000_000 <= new_gas <= 100_000_000_000_000
            ==> r == Ok::<_, RelayerError>(RelayerEvent::CrossContractGasUpdated { new_gas })
            && *final(relayer) == (Relayer { cross_contract_gas: new_gas, ..*old(relayer) }),
{
    if !relayer.is_manager(caller) {
        return Err(RelayerError::Unauthorized);
    }
    if new_gas < 15_000_000_000_000 || new_gas > 100_000_000_000_000 {
        return Err(RelayerError::AmountTooLow);
    }
    relayer.cross_contract_gas = new_gas;
    Ok(RelayerEvent::CrossContractGasUpdated { new_gas })
}

/// Sets the gas for the migration call after an upgrade: 15 to 200 TGas (in
/// gas units).
pub fn set_migration_gas(relayer: &mut Relayer, caller: &String, new_gas: u64) -> (r: Result<
    RelayerEvent,
    RelayerError,
>)
    ensures
        !managed_by(*old(relayer), caller@) ==> r == Err::<RelayerEvent, _>(
            RelayerError::Unauthorized,
        ) && *final(relayer) == *old(relayer),
        managed_by(*old(relayer), caller@) && !(15_000_000_000_000 <= new_gas
            <= 200_000_000_000_000) ==> r == Err::<RelayerEvent, _>(RelayerError::AmountTooLow)
            && *final(relayer) == *old(relayer),
        managed_by(*old(relayer), caller@) && 15_000_000_000_000 <= new_gas <= 200_000_000_000_000
            ==> r == Ok::<_, RelayerError>(RelayerEvent::MigrationGasUpdated { new_gas })
            && *final(relayer) == (Relayer { migration_gas: new_gas, ..*old(relayer) }),
{
    if !relayer.is_manager(caller) {
        return Err(RelayerError::Unauthorized);
    }
    if new_gas < 15_000_000_000_000 || new_gas > 200_000_000_000_000 {
        return Err(RelayerError::AmountTooLow);
    }
    relayer.migration_gas = new_gas;
    Ok(RelayerEvent::MigrationGasUpdated { new_gas })
}

/// Sets the contract that locks tokens for bridging.
pub fn set_omni_locker_contract(
    relayer: &mut Relayer,
    caller: &String,
    new_locker_contract: String,
) -> (r: Result<RelayerEvent, RelayerError>)
    ensures
        !managed_by(*old(relayer), caller@) ==> r == Err::<RelayerEvent, _>(
            RelayerError::Unauthorized,
        ) && *final(relayer) == *old(relayer),
        managed_by(*old(relayer), caller@) ==> r == Ok::<_, RelayerError>(
            RelayerEvent::OmniLockerContractUpdated { new_locker_contract },
        ) && *final(relayer) == (Relayer {
            omni_locker_contract: Some(new_locker_contract),
            ..*old(relayer)
        }),
{
    if !relayer.is_manager(caller) {
        return Err(RelayerError::Unauthorized);
    }
    relayer.omni_locker_contract = Some(new_locker_contract.clone());
    Ok(RelayerEvent::OmniLockerContractUpdated { new_locker_contract })
}

/// Sets the account that receives the balance above the maximum.
pub fn set_offload_recipient(relayer: &mut Relayer, caller: &String, new_recipient: String) -> (r:
    Result<RelayerEvent, RelayerError>)
    ensures
        !managed_by(*old(relayer), caller@) ==> r == Err::<RelayerEvent, _>(
            RelayerError::Unauthorized,
        ) && *final(relayer) == *old(relayer),
        managed_by(*old(relayer), caller@) ==> r == Ok::<_, RelayerError>(
            RelayerEvent::OffloadRecipientUpdated { new_recipient },
        ) && *final(relayer) == (Relayer { offload_recipient: new_recipient, ..*old(relayer) }),
{
    if !relayer.is_manager(caller) {
        return Err(RelayerError::Unauthorized);
    }
    relayer.offload_recipient = new_recipient.clone();
    Ok(RelayerEvent::OffloadRecipientUpdated { new_recipient })
}

/// Hands the manager role to `new_manager`.
pub fn set_manager(relayer: &mut Relayer, caller: &String, new_manager: String, timestamp_ms: u64) -> (r:
    Result<RelayerEvent, RelayerError>)
    ensures
        !managed_by(*old(relayer), caller@) ==> r == Err::<RelayerEvent, _>(
            RelayerError::Unauthorized,
        ) && *final(relayer) == *old(relayer),
        managed_by(*old(relayer), caller@) ==> r == Ok::<_, RelayerError>(
            RelayerEvent::ManagerChanged {
                old_manager: *caller,
                new_manager,
                timestamp: timestamp_ms,
            },
        ) && *final(relayer) == (Relayer { manager: new_manager, ..*old(relayer) }),
{
    if !relayer.is_manager(caller) {
        return Err(RelayerError::Unauthorized);
    }
    relayer.manager = new_manager.clone();
    Ok(
        RelayerEvent::ManagerChanged {
            old_manager: caller.clone(),
            new_manager,
            timestamp: timestamp_ms,
        },
    )
}

/// Sets the amount given to a sponsored account: at least 0.01 NEAR.
pub fn set_sponsor_amount(relayer: &mut Relayer, caller: &String, new_amount: u128) -> (r: Result<
    RelayerEvent,
    RelayerError,
>)
    ensures
        !managed_by(*old(relayer), caller@) ==> r == Err::<RelayerEvent, _>(
            RelayerError::Unauthorized,
        ) && *final(relayer) == *old(relayer),
        managed_by(*old(relayer), caller@) && new_amount < 10_000_000_000_000_000_000_000 ==> r
            == Err::<RelayerEvent, _>(RelayerError::AmountTooLow) && *final(relayer) == *old(
            relayer,
        ),
        managed_by(*old(relayer), caller@) && new_amount >= 10_000_000_000_000_000_000_000 ==> r
            == Ok::<_, RelayerError>(RelayerEvent::SponsorAmountUpdated { new_amount })
            && *final(relayer) == (Relayer { sponsor_amount: new_amount, ..*old(relayer) }),
{
    if !relayer.is_manager(caller) {
        return Err(RelayerError::Unauthorized);
    }
    if new_amount < 10_000_000_000_000_000_000_000 {
        return Err(RelayerError::AmountTooLow);
    }
    relayer.sponsor_amount = new_amount;
    Ok(RelayerEvent::SponsorAmountUpdated { new_amount })
}

/// Sets the gas for sponsoring: 50 to 300 TGas (in gas units).
pub fn set_sponsor_gas(relayer: &mut Relayer, caller: &String, new_gas: u64) -> (r: Result<
    RelayerEvent,
    RelayerError,
>)
    ensures
        !managed_by(*old(relayer), caller@) ==> r == Err::<RelayerEvent, _>(
            RelayerError::Unauthorized,
        ) && *final(relayer) == *old(relayer),
        managed_by(*old(relayer), caller@) && !(50_000_000_000_000 <= new_gas
            <= 300_000_000_000_000) ==> r == Err::<RelayerEvent, _>(RelayerError::AmountTooLow)
            && *final(relayer) == *old(relayer),
        managed_by(*old(relayer), caller@) && 50_000_000_000_000 <= new_gas <= 300_000_000_000_000
            ==> r == Ok::<_, RelayerError>(RelayerEvent::SponsorGasUpdated { new_gas })
            && *final(relayer) == (Relayer { sponsor_gas: new_gas, ..*old(relayer) }),
{
    if !relayer.is_manager(caller) {
        return Err(RelayerError::Unauthorized);
    }
    if new_gas < 50_000_000_000_000 || new_gas > 300_000_000_000_000 {
        return Err(RelayerError::AmountTooLow);
    }
    relayer.sponsor_gas = new_gas;
    Ok(RelayerEvent::SponsorGasUpdated { new_gas })
}

/// Sets how many meta-transactions one batch may hold: 1 to 10 (a new
/// relayer starts with 5).
pub fn set_chunk_size(relayer: &mut Relayer, caller: &String, new_size: usize) -> (r: Result<
    RelayerEvent,
    RelayerError,
>)
    ensures
        !managed_by(*old(relayer), caller@) ==> r == Err::<RelayerEvent, _>(
            RelayerError::Unauthorized,
        ) && *final(relayer) == *old(relayer),
        managed_by(*old(relayer), caller@) && !(1 <= new_size <= 10) ==> r == Err::<RelayerEvent, _>(
            RelayerError::AmountTooLow,
        ) && *final(relayer) == *old(relayer),
        managed_by(*old(relayer), caller@) && 1 <= new_size <= 10 ==> r == Ok::<_, RelayerError>(
            RelayerEvent::ChunkSizeUpdated { new_size },
        ) && *final(relayer) == (Relayer { chunk_size: new_size, ..*old(relayer) }),
{
    if !relayer.is_manager(caller) {
        return Err(RelayerError::Unauthorized);
    }
    if new_size < 1 || new_size > 10 {
        return Err(RelayerError::AmountTooLow);
    }
    relayer.chunk_size = new_size;
    Ok(RelayerEvent::ChunkSizeUpdated { new_size })
}

/// Registers `mpc_contract` as the signing contract for `chain`.
pub fn add_chain_mpc_mapping(
    relayer: &mut Relayer,
    caller: &String,
    chain: String,
    mpc_contract: String,
) -> (r: Result<RelayerEvent, RelayerError>)
    ensures
        !managed_by(*old(relayer), caller@) ==> r == Err::<RelayerEvent, _>(
            RelayerError::Unauthorized,
        ) && *final(relayer) == *old(relayer),
        managed_by(*old(relayer), caller@) ==> r == Ok::<_, RelayerError>(
            RelayerEvent::ChainMpcMappingAdded { chain, mpc_contract },
        ) && final(relayer).chain_mpc_mapping@ == old(relayer).chain_mpc_mapping@.insert(
            chain@,
            mpc_contract,
        ) && *final(relayer) == (Relayer {
            chain_mpc_mapping: final(relayer).chain_mpc_mapping,
            ..*old(relayer)
        }),
        managed_by(*old(relayer), caller@) ==> final(relayer).mpc_of(chain@) == Some(
            mpc_contract@,
        ),
{
    if !relayer.is_manager(caller) {
        return Err(RelayerError::Unauthorized);
    }
    relayer.chain_mpc_mapping.insert(chain.clone(), mpc_contract.clone());
    Ok(RelayerEvent::ChainMpcMappingAdded { chain, mpc_contract })
}

/// Forgets the signing contract registered for `chain`.
pub fn remove_chain_mpc_mapping(relayer: &mut Relayer, caller: &String, chain: String) -> (r:
    Result<RelayerEvent, RelayerError>)
    ensures
        !managed_by(*old(relayer), caller@) ==> r == Err::<RelayerEvent, _>(
            RelayerError::Unauthorized,
        ) && *final(relayer) == *old(relayer),
        managed_by(*old(relayer), caller@) ==> r == Ok::<_, RelayerError>(
            RelayerEvent::ChainMpcMappingRemoved { chain },
        ) && final(relayer).chain_mpc_mapping@ == old(relayer).chain_mpc_mapping@.remove(chain@)
            && *final(relayer) == (Relayer {
            chain_mpc_mapping: final(relayer).chain_mpc_mapping,
            ..*old(relayer)
        }),
        managed_by(*old(relayer), caller@) ==> final(relayer).mpc_of(chain@) is None,
{
    if !relayer.is_manager(caller) {
        return Err(RelayerError::Unauthorized);
    }
    relayer.chain_mpc_mapping.remove(&chain);
    Ok(RelayerEvent::ChainMpcMappingRemoved { chain })
}

/// Sets the contract that authorizes keys.
pub fn set_auth_contract(relayer: &mut Relayer, caller: &String, new_auth_contract: String) -> (r:
    Result<RelayerEvent, RelayerError>)
    ensures
        !managed_by(*old(relayer), caller@) ==> r == Err::<RelayerEvent, _>(
            RelayerError::Unauthorized,
        ) && *final(relayer) == *old(relayer),
        managed_by(*old(relayer), caller@) ==> r == Ok::<_, RelayerError>(
            RelayerEvent::AuthContractUpdated { new_auth_contract },
        ) && *final(relayer) == (Relayer { auth_contract: new_auth_contract, ..*old(relayer) }),
{
    if !relayer.is_manager(caller) {
        return Err(RelayerError::Unauthorized);
    }
    relayer.auth_contract = new_auth_contract.clone();
    Ok(RelayerEvent::AuthContractUpdated { new_auth_contract })
}

/// Sets the fungible-token wrapper contract.
pub fn set_ft_wrapper_contract(
    relayer: &mut Relayer,
    caller: &String,
    new_ft_wrapper_contract: String,
) -> (r: Result<RelayerEvent, RelayerError>)
    ensures
        !managed_by(*old(relayer), caller@) ==> r == Err::<RelayerEvent, _>(
            RelayerError::Unauthorized,
        ) && *final(relayer) == *old(relayer),
        managed_by(*old(relayer), caller@) ==> r == Ok::<_, RelayerError>(
            RelayerEvent::FtWrapperContractUpdated { new_ft_wrapper_contract },
        ) && *final(relayer) == (Relayer {
            ft_wrapper_contract: new_ft_wrapper_contract,
            ..*old(relayer)
        }),
{
    if !relayer.is_manager(caller) {
        return Err(RelayerError::Unauthorized);
    }
    relayer.ft_wrapper_contract = new_ft_wrapper_contract.clone();
    Ok(RelayerEvent::FtWrapperContractUpdated { new_ft_wrapper_contract })
}

/// The smallest non-zero base fee: 0.0001 NEAR.
pub const MIN_BASE_FEE: u128 = 100_000_000_000_000_000_000;

/// How a base-fee change is judged: zero is always allowed; a non-zero fee
/// needs at least two signatures and must reach the minimum.
pub open spec fn base_fee_check(new_fee: u128, signature_count: Option<nat>) -> Option<RelayerError> {
    if new_fee == 0 {
        None
    } else if signature_count is None || signature_count.unwrap() < 2 {
        Some(RelayerError::InsufficientSignatures)
    } else if new_fee < MIN_BASE_FEE {
        Some(RelayerError::FeeTooLow)
    } else {
        None
    }
}

pub open spec fn count_of(signatures: Option<Vec<Vec<u8>>>) -> Option<nat> {
    match signatures {
        Some(v) => Some(v@.len()),
        None => None,
    }
}

/// Sets the fee charged for a bridge transfer.
pub fn set_base_fee(
    relayer: &mut Relayer,
    caller: &String,
    new_fee: u128,
    signatures: Option<Vec<Vec<u8>>>,
) -> (r: Result<RelayerEvent, RelayerError>)
    ensures
        !managed_by(*old(relayer), caller@) ==> r == Err::<RelayerEvent, _>(
            RelayerError::Unauthorized,
        ) && *final(relayer) == *old(relayer),
        managed_by(*old(relayer), caller@) ==> match base_fee_check(new_fee, count_of(signatures)) {
            Some(e) => r == Err::<RelayerEvent, _>(e) && *final(relayer) == *old(relayer),
            None => r == Ok::<_, RelayerError>(RelayerEvent::BaseFeeUpdated { new_fee })
                && *final(relayer) == (Relayer { base_fee: new_fee, ..*old(relayer) }),
        },
{
    if !relayer.is_manager(caller) {
        return Err(RelayerError::Unauthorized);
    }
    if new_fee > 0 {
        match signatures {
            Some(sigs) => {
                if sigs.len() < 2 {
                    return Err(RelayerError::InsufficientSignatures);
                }
            },
            None => {
                return Err(RelayerError::InsufficientSignatures);
            },
        }
        if new_fee < MIN_BASE_FEE {
            return Err(RelayerError::FeeTooLow);
        }
    }
    relayer.base_fee = new_fee;
    Ok(RelayerEvent::BaseFeeUpdated { new_fee })
}

/// Sets the balance the relayer keeps: not above the maximum.
pub fn set_min_balance(relayer: &mut Relayer, caller: &String, new_min: u128) -> (r: Result<
    RelayerEvent,
    RelayerError,
>)
    ensures
        !managed_by(*old(relayer), caller@) ==> r == Err::<RelayerEvent, _>(
            RelayerError::Unauthorized,
        ) && *final(relayer) == *old(relayer),
        managed_by(*old(relayer), caller@) && new_min > old(relayer).max_balance ==> r == Err::<
            RelayerEvent,
            _,
        >(RelayerError::AmountTooLow) && *final(relayer) == *old(relayer),
        managed_by(*old(relayer), caller@) && new_min <= old(relayer).max_balance ==> r == Ok::<
            _,
            RelayerError,
        >(RelayerEvent::MinBalanceUpdated { new_min }) && *final(relayer) == (Relayer {
            min_balance: new_min,
            ..*old(relayer)
        }),
        old(relayer).min_balance <= old(relayer).max_balance ==> final(relayer).min_balance
            <= final(relayer).max_balance,
{
    if !relayer.is_manager(caller) {
        return Err(RelayerError::Unauthorized);
    }
    if new_min > relayer.max_balance {
        return Err(RelayerError::AmountTooLow);
    }
    relayer.min_balance = new_min;
    Ok(RelayerEvent::MinBalanceUpdated { new_min })
}

/// Sets the balance above which the surplus is offloaded: not below the
/// minimum.
pub fn set_max_balance(relayer: &mut Relayer, caller: &String, new_max: u128) -> (r: Result<
    RelayerEvent,
    RelayerError,
>)
    ensures
        !managed_by(*old(relayer), caller@) ==> r == Err::<RelayerEvent, _>(
            RelayerError::Unauthorized,
        ) && *final(relayer) == *old(relayer),
        managed_by(*old(relayer), caller@) && new_max < old(relayer).min_balance ==> r == Err::<
            RelayerEvent,
            _,
        >(RelayerError::AmountTooLow) && *final(relayer) == *old(relayer),
        managed_by(*old(relayer), caller@) && new_max >= old(relayer).min_balance ==> r == Ok::<
            _,
            RelayerError,
        >(RelayerEvent::MaxBalanceUpdated { new_max }) && *final(relayer) == (Relayer {
            max_balance: new_max,
            ..*old(relayer)
        }),
        old(relayer).min_balance <= old(relayer).max_balance ==> final(relayer).min_balance
            <= final(relayer).max_balance,
{
    if !relayer.is_manager(caller) {
        return Err(RelayerError::Unauthorized);
    }
    if new_max < relayer.min_balance {
        return Err(RelayerError::AmountTooLow);
    }
    relayer.max_balance = new_max;
    Ok(RelayerEvent::MaxBalanceUpdated { new_max })
}

/// Sets the cap of the gas pool: not below the pool's minimum.
pub fn set_max_gas_pool(relayer: &mut Relayer, caller: &String, new_max: u128) -> (r: Result<
    (),
    RelayerError,
>)
    ensures
        !managed_by(*old(relayer), caller@) ==> r == Err::<(), _>(RelayerError::Unauthorized)
            && *final(relayer) == *old(relayer),
        managed_by(*old(relayer), caller@) && new_max < old(relayer).min_gas_pool ==> r == Err::<
            (),
            _,
        >(RelayerError::AmountTooLow) && *final(relayer) == *old(relayer),
        managed_by(*old(relayer), caller@) && new_max >= old(relayer).min_gas_pool ==> r == Ok::<
            (),
            RelayerError,
        >(()) && *final(relayer) == (Relayer { max_gas_pool: new_max, ..*old(relayer) }),
{
    if !relayer.is_manager(caller) {
        return Err(RelayerError::Unauthorized);
    }
    if new_max < relayer.min_gas_pool {
        return Err(RelayerError::AmountTooLow);
    }
    relayer.max_gas_pool = new_max;
    Ok(())
}

/// Sets what the gas pool must hold before it pays for anything: not above
/// the pool's cap.
pub fn set_min_gas_pool(relayer: &mut Relayer, caller: &String, new_min: u128) -> (r: Result<
    (),
    RelayerError,
>)
    ensures
        !managed_by(*old(relayer), caller@) ==> r == Err::<(), _>(RelayerError::Unauthorized)
            && *final(relayer) == *old(relayer),
        managed_by(*old(relayer), caller@) && new_min > old(relayer).max_gas_pool ==> r == Err::<
            (),
            _,
        >(RelayerError::AmountTooLow) && *final(relayer) == *old(relayer),
        managed_by(*old(relayer), caller@) && new_min <= old(relayer).max_gas_pool ==> r == Ok::<
            (),
            RelayerError,
        >(()) && *final(relayer) == (Relayer { min_gas_pool: new_min, ..*old(relayer) }),
{
    if !relayer.is_manager(caller) {
        return Err(RelayerError::Unauthorized);
    }
    if new_min > relayer.max_gas_pool {
        return Err(RelayerError::AmountTooLow);
    }
    relayer.min_gas_pool = new_min;
    Ok(())
}

/// Halts relaying, sponsoring and gas-pool deposits until `unpause`. Only
/// the manager may; pausing a paused relayer changes nothing.
pub fn pause(relayer: &mut Relayer, caller: &String) -> (r: Result<(), RelayerError>)
    ensures
        !managed_by(*old(relayer), caller@) ==> r == Err::<(), _>(RelayerError::Unauthorized)
            && *final(relayer) == *old(relayer),
        managed_by(*old(relayer), caller@) ==> r == Ok::<(), RelayerError>(()) && *final(relayer)
            == (Relayer { paused: true, ..*old(relayer) }),
{
    if !relayer.is_manager(caller) {
        return Err(RelayerError::Unauthorized);
    }
    relayer.paused = true;
    Ok(())
}

/// Resumes what `pause` halted. Only the manager may; unpausing a running
/// relayer changes nothing.
pub fn unpause(relayer: &mut Relayer, caller: &String) -> (r: Result<(), RelayerError>)
    ensures
        !managed_by(*old(relayer), caller@) ==> r == Err::<(), _>(RelayerError::Unauthorized)
            && *final(relayer) == *old(relayer),
        managed_by(*old(relayer), caller@) ==> r == Ok::<(), RelayerError>(()) && *final(relayer)
            == (Relayer { paused: false, ..*old(relayer) }),
{
    if !relayer.is_manager(caller) {
        return Err(RelayerError::Unauthorized);
    }
    relayer.paused = false;
    Ok(())
}

} // verus!
