use vstd::prelude::*;

verus! {

/// The events the relayer emits (NEP-297, version 1.0.0). Amounts are
/// yoctoNEAR, gas values are as the relayer stores them.
#[derive(Debug)]
pub enum RelayerEvent {
    LowBalance { balance: u128 },
    LowGas { remaining_gas: u64 },
    AccountSponsored { account_id: String },
    AuthAdded { auth_account: String, key_hash: String },
    AuthRemoved { auth_account: String, key_hash: String },
    CrossChainSignatureResult { chain: String, request_id: u64, result: Vec<u8> },
    BridgeResult { sender_id: String, action_type: String, result: Vec<u8> },
    BridgeTransferInitiated {
        token: String,
        amount: u128,
        destination_chain: String,
        recipient: String,
        sender: String,
        nonce: u64,
    },
    BridgeTransferCompleted {
        token: String,
        amount: u128,
        destination_chain: String,
        recipient: String,
        sender: String,
        signature: Vec<u8>,
    },
    BridgeTransferFailed {
        token: String,
        amount: u128,
        destination_chain: String,
        recipient: String,
        sender: String,
        nonce: u64,
    },
    OffloadRecipientUpdated { new_recipient: String },
    SponsorAmountUpdated { new_amount: u128 },
    SponsorGasUpdated { new_gas: u64 },
    CrossContractGasUpdated { new_gas: u64 },
    MigrationGasUpdated { new_gas: u64 },
    OmniLockerContractUpdated { new_locker_contract: String },
    ChainMpcMappingAdded { chain: String, mpc_contract: String },
    ChainMpcMappingRemoved { chain: String },
    ChunkSizeUpdated { new_size: usize },
    AuthContractUpdated { new_auth_contract: String },
    FtWrapperContractUpdated { new_ft_wrapper_contract: String },
    MinBalanceUpdated { new_min: u128 },
    MaxBalanceUpdated { new_max: u128 },
    BaseFeeUpdated { new_fee: u128 },
    FeeCharged { action: String, fee: u128, sender: String },
    ManagerChanged { old_manager: String, new_manager: String, timestamp: u64 },
    ContractUpgraded { manager: String, timestamp: u64 },
    StateMigrated { old_version: String, new_version: String },
}

} // verus!
