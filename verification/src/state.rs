//! The relayer's configuration and bookkeeping, and the values it reads from
//! the runtime for one call.
use vstd::prelude::*;
use crate::strmap::StrMap;

verus! {

/// What the runtime tells the contract about the current call.
#[derive(Debug)]
pub struct Context {
    /// The relayer contract's own account.
    pub current_account_id: String,
    /// The account that called this method.
    pub predecessor_account_id: String,
    /// The account that signed the transaction.
    pub signer_account_id: String,
    /// The contract's balance, in yoctoNEAR.
    pub account_balance: u128,
    /// The deposit attached to the call, in yoctoNEAR.
    pub attached_deposit: u128,
    /// Gas attached to the call, in TGas.
    pub prepaid_gas_tgas: u64,
    /// Gas burnt so far, in TGas.
    pub used_gas_tgas: u64,
    /// Block timestamp in nanoseconds.
    pub block_timestamp: u64,
    /// Block timestamp in milliseconds.
    pub block_timestamp_ms: u64,
}

/// A bridge transfer that has been started and not yet settled.
#[derive(Debug)]
pub struct PendingTransfer {
    pub nonce: u64,
    pub sender: String,
    pub token: String,
    pub amount: u128,
    pub recipient: String,
    pub fee: u128,
}

/// The relayer's state.
#[derive(Debug)]
pub struct Relayer {
    pub version: String,
    pub manager: String,
    pub offload_recipient: String,
    pub auth_contract: String,
    pub ft_wrapper_contract: String,
    pub omni_locker_contract: Option<String>,
    /// Which signing (MPC) contract serves each chain.
    pub chain_mpc_mapping: StrMap<String>,
    pub sponsor_amount: u128,
    pub sponsor_gas: u64,
    pub cross_contract_gas: u64,
    pub migration_gas: u64,
    pub chunk_size: usize,
    pub min_balance: u128,
    pub max_balance: u128,
    pub base_fee: u128,
    /// For each chain, the nonce of the next bridge transfer to settle.
    pub transfer_nonces: StrMap<u64>,
    /// For each chain, the bridge transfer waiting to be settled.
    pub pending_transfers: StrMap<PendingTransfer>,
    pub paused: bool,
    /// NEAR set aside to pay for relayed gas, in yoctoNEAR.
    pub gas_pool: u128,
    pub max_gas_pool: u128,
    /// The gas pool the relayer must hold to relay or sponsor, in yoctoNEAR.
    pub min_gas_pool: u128,
}

/// The version a new relayer starts at.
pub open spec fn initial_version() -> Seq<char> {
    "1.0"@
}

/// The version a migration brings the relayer to.
pub open spec fn latest_version() -> Seq<char> {
    "1.1"@
}

/// Where signing requests go when no contract is registered for the chain.
pub open spec fn default_mpc_contract() -> Seq<char> {
    "v1.signer-prod.testnet"@
}

pub const DEFAULT_SPONSOR_AMOUNT: u128 = 100_000_000_000_000_000_000_000;

pub const DEFAULT_SPONSOR_GAS: u64 = 100_000_000_000_000;

pub const DEFAULT_CROSS_CONTRACT_GAS: u64 = 200_000_000_000_000;

pub const DEFAULT_MIGRATION_GAS: u64 = 250_000_000_000_000;

pub const DEFAULT_CHUNK_SIZE: usize = 5;

pub const DEFAULT_MIN_BALANCE: u128 = 10_000_000_000_000_000_000_000_000;

pub const DEFAULT_MAX_BALANCE: u128 = 1_000_000_000_000_000_000_000_000_000;

pub const DEFAULT_BASE_FEE: u128 = 100_000_000_000_000_000_000;

pub const DEFAULT_MAX_GAS_POOL: u128 = 500_000_000_000_000_000_000_000_000;

pub const DEFAULT_MIN_GAS_POOL: u128 = 1_000_000_000_000_000_000_000_000;

/// What relaying one meta-transaction takes from the gas pool: 0.029 NEAR
/// (twice that when it carries a fee action).
pub const RELAY_GAS_COST: u128 = 29_000_000_000_000_000_000_000;

impl Relayer {
    /// The nonce the next bridge transfer on `chain` will carry.
    pub open spec fn nonce_of(&self, chain: Seq<char>) -> u64 {
        if self.transfer_nonces@.contains_key(chain) {
            self.transfer_nonces@[chain]
        } else {
            0
        }
    }

    /// The signing contract registered for `chain`, if any.
    pub open spec fn mpc_of(&self, chain: Seq<char>) -> Option<Seq<char>> {
        if self.chain_mpc_mapping@.contains_key(chain) {
            Some(self.chain_mpc_mapping@[chain]@)
        } else {
            None
        }
    }

    /// A fresh relayer with the default configuration. `current_account_id`
    /// is the relayer's own account, the default lock contract.
    pub fn new(
        manager: String,
        offload_recipient: String,
        auth_contract: String,
        ft_wrapper_contract: String,
        current_account_id: String,
    ) -> (r: Relayer)
        ensures
            r.version@ == initial_version(),
            r.manager == manager,
            r.offload_recipient == offload_recipient,
            r.auth_contract == auth_contract,
            r.ft_wrapper_contract == ft_wrapper_contract,
            r.omni_locker_contract == Some(current_account_id),
            r.chain_mpc_mapping@.dom() == set!["near"@],
            r.chain_mpc_mapping@["near"@]@ == "mpc.near"@,
            r.sponsor_amount == DEFAULT_SPONSOR_AMOUNT,
            r.sponsor_gas == DEFAULT_SPONSOR_GAS,
            r.cross_contract_gas == DEFAULT_CROSS_CONTRACT_GAS,
            r.migration_gas == DEFAULT_MIGRATION_GAS,
            r.chunk_size == DEFAULT_CHUNK_SIZE,
            r.min_balance == DEFAULT_MIN_BALANCE,
            r.max_balance == DEFAULT_MAX_BALANCE,
            r.base_fee == DEFAULT_BASE_FEE,
            r.transfer_nonces@ == Map::<Seq<char>, u64>::empty(),
            r.pending_transfers@ == Map::<Seq<char>, PendingTransfer>::empty(),
            !r.paused,
            r.gas_pool == 0,
            r.max_gas_pool == DEFAULT_MAX_GAS_POOL,
            r.min_gas_pool == DEFAULT_MIN_GAS_POOL,
    {
        let mut mapping: StrMap<String> = StrMap::new();
        mapping.insert("near".to_string(), "mpc.near".to_string());
        proof {
            reveal_strlit("near");
            reveal_strlit("mpc.near");
            reveal_strlit("1.0");
        }
        Relayer {
            version: "1.0".to_string(),
            manager,
            offload_recipient,
            auth_contract,
            ft_wrapper_contract,
            omni_locker_contract: Some(current_account_id),
            chain_mpc_mapping: mapping,
            sponsor_amount: DEFAULT_SPONSOR_AMOUNT,
            sponsor_gas: DEFAULT_SPONSOR_GAS,
            cross_contract_gas: DEFAULT_CROSS_CONTRACT_GAS,
            migration_gas: DEFAULT_MIGRATION_GAS,
            chunk_size: DEFAULT_CHUNK_SIZE,
            min_balance: DEFAULT_MIN_BALANCE,
            max_balance: DEFAULT_MAX_BALANCE,
            base_fee: DEFAULT_BASE_FEE,
            transfer_nonces: StrMap::new(),
            pending_transfers: StrMap::new(),
            paused: false,
            gas_pool: 0,
            max_gas_pool: DEFAULT_MAX_GAS_POOL,
            min_gas_pool: DEFAULT_MIN_GAS_POOL,
        }
    }

    /// Whether `account_id` is the manager.
    pub fn is_manager(&self, account_id: &String) -> (r: bool)
        ensures
            r == (self.manager@ == account_id@),
    {
        self.manager == *account_id
    }

    /// The nonce the next bridge transfer on `chain` will carry.
    pub fn get_pending_nonce(&self, chain: &String) -> (r: u64)
        ensures
            r == self.nonce_of(chain@),
    {
        match self.transfer_nonces.get(chain) {
            Some(n) => *n,
            None => 0,
        }
    }

    /// Hands out the next nonce for `chain` and moves the counter past it.
    pub fn get_next_nonce(&mut self, chain: &String) -> (r: u64)
        requires
            old(self).nonce_of(chain@) < u64::MAX,
        ensures
            r == old(self).nonce_of(chain@),
            final(self).transfer_nonces@ == old(self).transfer_nonces@.insert(chain@, (r + 1) as u64),
            *final(self) == (Relayer { transfer_nonces: final(self).transfer_nonces, ..*old(self) }),
    {
        let nonce = self.get_pending_nonce(chain);
        self.transfer_nonces.insert(chain.clone(), nonce + 1);
        nonce
    }

    /// Records a bridge transfer on `chain` that waits to be settled,
    /// replacing any earlier one on that chain.
    pub fn add_pending_transfer(
        &mut self,
        chain: String,
        nonce: u64,
        sender: String,
        token: String,
        amount: u128,
        recipient: String,
        fee: u128,
    )
        ensures
            final(self).pending_transfers@ == old(self).pending_transfers@.insert(
                chain@,
                PendingTransfer { nonce, sender, token, amount, recipient, fee },
            ),
            *final(self) == (Relayer { pending_transfers: final(self).pending_transfers, ..*old(self) }),
    {
        self.pending_transfers.insert(
            chain,
            PendingTransfer { nonce, sender, token, amount, recipient, fee },
        );
    }

    /// Drops the transfer waiting on `chain` with this nonce and hands it
    /// back; the chain's nonce stays where it is.
    pub fn revert_pending_transfer(&mut self, chain: &String, nonce: u64) -> (r: Option<
        PendingTransfer,
    >)
        ensures
            ({
                let waiting = old(self).pending_transfers@.contains_key(chain@)
                    && old(self).pending_transfers@[chain@].nonce == nonce;
                &&& r is Some == waiting
                &&& waiting ==> r == Some(old(self).pending_transfers@[chain@])
                &&& final(self).pending_transfers@ == if waiting {
                    old(self).pending_transfers@.remove(chain@)
                } else {
                    old(self).pending_transfers@
                }
            }),
            *final(self) == (Relayer { pending_transfers: final(self).pending_transfers, ..*old(self) }),
    {
        let waiting = match self.pending_transfers.get(chain) {
            Some(p) => p.nonce == nonce,
            None => false,
        };
        if waiting {
            self.pending_transfers.take(chain)
        } else {
            None
        }
    }

    /// Settles the transfer waiting on `chain` with this nonce: it is dropped
    /// and the chain's next nonce becomes `nonce + 1`. Nothing changes when no
    /// such transfer waits.
    pub fn confirm_pending_transfer(&mut self, chain: &String, nonce: u64)
        requires
            nonce < u64::MAX,
        ensures
            ({
                let waiting = old(self).pending_transfers@.contains_key(chain@)
                    && old(self).pending_transfers@[chain@].nonce == nonce;
                &&& waiting ==> final(self).pending_transfers@ == old(
                    self,
                ).pending_transfers@.remove(chain@) && final(self).transfer_nonces@ == old(
                    self,
                ).transfer_nonces@.insert(chain@, (nonce + 1) as u64)
                &&& !waiting ==> final(self).pending_transfers@ == old(self).pending_transfers@
                    && final(self).transfer_nonces@ == old(self).transfer_nonces@
            }),
            *final(self) == (Relayer {
                pending_transfers: final(self).pending_transfers,
                transfer_nonces: final(self).transfer_nonces,
                ..*old(self)
            }),
    {
        let waiting = match self.pending_transfers.get(chain) {
            Some(p) => p.nonce == nonce,
            None => false,
        };
        if waiting {
            self.pending_transfers.remove(chain);
            self.transfer_nonces.insert(chain.clone(), nonce + 1);
        }
    }

    /// The contract that locks tokens for bridging: the configured one, or
    /// the relayer's own account when none is set.
    pub fn get_omni_locker_contract(&self, current_account_id: &String) -> (r: String)
        ensures
            r@ == match self.omni_locker_contract {
                Some(a) => a@,
                None => current_account_id@,
            },
    {
        match &self.omni_locker_contract {
            Some(a) => a.clone(),
            None => current_account_id.clone(),
        }
    }

    /// The signing contract for requests that name no chain: the one
    /// registered for "testnet", or the production signer.
    pub fn default_signer(&self) -> (r: String)
        ensures
            r@ == match self.mpc_of("testnet"@) {
                Some(a) => a,
                None => default_mpc_contract(),
            },
    {
        let key = "testnet".to_string();
        proof {
            reveal_strlit("testnet");
        }
        match self.chain_mpc_mapping.get(&key) {
            Some(a) => a.clone(),
            None => "v1.signer-prod.testnet".to_string(),
        }
    }

    pub fn get_min_balance(&self) -> (r: u128)
        ensures
            r == self.min_balance,
    {
        self.min_balance
    }

    pub fn get_max_balance(&self) -> (r: u128)
        ensures
            r == self.max_balance,
    {
        self.max_balance
    }

    pub fn get_sponsor_amount(&self) -> (r: u128)
        ensures
            r == self.sponsor_amount,
    {
        self.sponsor_amount
    }

    pub fn get_sponsor_gas(&self) -> (r: u64)
        ensures
            r == self.sponsor_gas,
    {
        self.sponsor_gas
    }

    pub fn get_cross_contract_gas(&self) -> (r: u64)
        ensures
            r == self.cross_contract_gas,
    {
        self.cross_contract_gas
    }

    pub fn get_migration_gas(&self) -> (r: u64)
        ensures
            r == self.migration_gas,
    {
        self.migration_gas
    }

    pub fn get_chunk_size(&self) -> (r: usize)
        ensures
            r == self.chunk_size,
    {
        self.chunk_size
    }

    pub fn get_auth_contract(&self) -> (r: String)
        ensures
            r == self.auth_contract,
    {
        self.auth_contract.clone()
    }

    pub fn get_ft_wrapper_contract(&self) -> (r: String)
        ensures
            r == self.ft_wrapper_contract,
    {
        self.ft_wrapper_contract.clone()
    }

    pub fn get_base_fee(&self) -> (r: u128)
        ensures
            r == self.base_fee,
    {
        self.base_fee
    }

    /// Whether relaying, sponsoring and gas-pool deposits are halted.
    pub fn is_paused(&self) -> (r: bool)
        ensures
            r == self.paused,
    {
        self.paused
    }

    pub fn get_min_gas_pool(&self) -> (r: u128)
        ensures
            r == self.min_gas_pool,
    {
        self.min_gas_pool
    }

    pub fn get_gas_pool(&self) -> (r: u128)
        ensures
            r == self.gas_pool,
    {
        self.gas_pool
    }
}

} // verus!
