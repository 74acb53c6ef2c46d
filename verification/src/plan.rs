//! Promise chains as plain data. A relayer operation that schedules work on
//! other accounts returns a [`PromisePlan`]: a list of receipts, each sent
//! after the previous one has run (the `then` of NEAR promises).
use vstd::prelude::*;
use crate::types::{
    PublicKey, SignedDelegateAction, SignedDelegateActionV, byte_lists_view, opt_byte_lists_view,
    opt_str_view,
};
use crate::events::RelayerEvent;
use crate::errors::RelayerError;

verus! {

/// A cross-contract call: the method it names and the arguments it passes.
/// `Raw` passes bytes as they are; the other variants are the methods of the
/// contracts the relayer works with, their arguments sent as JSON.
#[derive(Debug)]
pub enum CallArgs {
    Raw { method_name: String, args: Vec<u8> },
    GetNonce { account_id: String, tx_hash: String },
    IsAuthorized { account_id: String, public_key: PublicKey, signatures: Option<Vec<Vec<u8>>> },
    RegisterKey {
        account_id: String,
        public_key: PublicKey,
        expiration_days: Option<u32>,
        is_multi_sig: bool,
        multi_sig_threshold: Option<u32>,
    },
    RemoveKey { account_id: String, public_key: PublicKey },
    IsRegistered { token: String, account_id: String },
    StorageDeposit { token: String, account_id: String, deposit: u128 },
    FtTransfer { token: String, receiver_id: String, amount: u128, memo: Option<String> },
    Lock { token: String, amount: u128, destination_chain: String, recipient: String },
    HandleAuthResult { sender_id: String, signed_delegate: SignedDelegateAction, is_authorized: bool },
    HandleRegistration { account_id: String, token: String, is_sender: bool, is_registered: bool },
    HandleMpcSignature { chain: String, request_id: u64, result: Vec<u8> },
    HandleBridgeResult { sender_id: String, action_type: String, result: Vec<u8> },
    HandleBridgeTransferResult {
        sender_id: String,
        token: String,
        amount: u128,
        destination_chain: String,
        recipient: String,
        signature: Vec<u8>,
    },
}

pub enum CallArgsV {
    Raw { method_name: Seq<char>, args: Seq<u8> },
    GetNonce { account_id: Seq<char>, tx_hash: Seq<char> },
    IsAuthorized { account_id: Seq<char>, public_key: Seq<u8>, signatures: Option<Seq<Seq<u8>>> },
    RegisterKey {
        account_id: Seq<char>,
        public_key: Seq<u8>,
        expiration_days: Option<u32>,
        is_multi_sig: bool,
        multi_sig_threshold: Option<u32>,
    },
    RemoveKey { account_id: Seq<char>, public_key: Seq<u8> },
    IsRegistered { token: Seq<char>, account_id: Seq<char> },
    StorageDeposit { token: Seq<char>, account_id: Seq<char>, deposit: u128 },
    FtTransfer { token: Seq<char>, receiver_id: Seq<char>, amount: u128, memo: Option<Seq<char>> },
    Lock { token: Seq<char>, amount: u128, destination_chain: Seq<char>, recipient: Seq<char> },
    HandleAuthResult {
        sender_id: Seq<char>,
        signed_delegate: SignedDelegateActionV,
        is_authorized: bool,
    },
    HandleRegistration {
        account_id: Seq<char>,
        token: Seq<char>,
        is_sender: bool,
        is_registered: bool,
    },
    HandleMpcSignature { chain: Seq<char>, request_id: u64, result: Seq<u8> },
    HandleBridgeResult { sender_id: Seq<char>, action_type: Seq<char>, result: Seq<u8> },
    HandleBridgeTransferResult {
        sender_id: Seq<char>,
        token: Seq<char>,
        amount: u128,
        destination_chain: Seq<char>,
        recipient: Seq<char>,
        signature: Seq<u8>,
    },
}

impl View for CallArgs {
    type V = CallArgsV;

    open spec fn view(&self) -> CallArgsV {
        match self {
            CallArgs::Raw { method_name, args } => CallArgsV::Raw {
                method_name: method_name@,
                args: args@,
            },
            CallArgs::GetNonce { account_id, tx_hash } => CallArgsV::GetNonce {
                account_id: account_id@,
                tx_hash: tx_hash@,
            },
            CallArgs::IsAuthorized { account_id, public_key, signatures } =>
                CallArgsV::IsAuthorized {
                    account_id: account_id@,
                    public_key: public_key@,
                    signatures: opt_byte_lists_view(*signatures),
                },
            CallArgs::RegisterKey {
                account_id,
                public_key,
                expiration_days,
                is_multi_sig,
                multi_sig_threshold,
            } => CallArgsV::RegisterKey {
                account_id: account_id@,
                public_key: public_key@,
                expiration_days: *expiration_days,
                is_multi_sig: *is_multi_sig,
                multi_sig_threshold: *multi_sig_threshold,
            },
            CallArgs::RemoveKey { account_id, public_key } => CallArgsV::RemoveKey {
                account_id: account_id@,
                public_key: public_key@,
            },
            CallArgs::IsRegistered { token, account_id } => CallArgsV::IsRegistered {
                token: token@,
                account_id: account_id@,
            },
            CallArgs::StorageDeposit { token, account_id, deposit } => CallArgsV::StorageDeposit {
                token: token@,
                account_id: account_id@,
                deposit: *deposit,
            },
            CallArgs::FtTransfer { token, receiver_id, amount, memo } => CallArgsV::FtTransfer {
                token: token@,
                receiver_id: receiver_id@,
                amount: *amount,
                memo: opt_str_view(*memo),
            },
            CallArgs::Lock { token, amount, destination_chain, recipient } => CallArgsV::Lock {
                token: token@,
                amount: *amount,
                destination_chain: destination_chain@,
                recipient: recipient@,
            },
            CallArgs::HandleAuthResult { sender_id, signed_delegate, is_authorized } =>
                CallArgsV::HandleAuthResult {
                    sender_id: sender_id@,
                    signed_delegate: signed_delegate@,
                    is_authorized: *is_authorized,
                },
            CallArgs::HandleRegistration { account_id, token, is_sender, is_registered } =>
                CallArgsV::HandleRegistration {
                    account_id: account_id@,
                    token: token@,
                    is_sender: *is_sender,
                    is_registered: *is_registered,
                },
            CallArgs::HandleMpcSignature { chain, request_id, result } =>
                CallArgsV::HandleMpcSignature {
                    chain: chain@,
                    request_id: *request_id,
                    result: result@,
                },
            CallArgs::HandleBridgeResult { sender_id, action_type, result } =>
                CallArgsV::HandleBridgeResult {
                    sender_id: sender_id@,
                    action_type: action_type@,
                    result: result@,
                },
            CallArgs::HandleBridgeTransferResult {
                sender_id,
                token,
                amount,
                destination_chain,
                recipient,
                signature,
            } => CallArgsV::HandleBridgeTransferResult {
                sender_id: sender_id@,
                token: token@,
                amount: *amount,
                destination_chain: destination_chain@,
                recipient: recipient@,
                signature: signature@,
            },
        }
    }
}

/// One action of a receipt. `static_gas` is the gas attached to a call, in
/// gas units (10^12 of them make a TGas); `allowance: None` is an unlimited allowance.
#[derive(Debug)]
pub enum ReceiptAction {
    FunctionCall { call: CallArgs, deposit: u128, static_gas: u64 },
    Transfer { amount: u128 },
    AddFullAccessKey { public_key: PublicKey },
    AddAccessKey {
        public_key: PublicKey,
        allowance: Option<u128>,
        receiver_id: String,
        function_names: String,
    },
    DeployContract { code: Vec<u8> },
}

pub enum ReceiptActionV {
    FunctionCall { call: CallArgsV, deposit: u128, static_gas: u64 },
    Transfer { amount: u128 },
    AddFullAccessKey { public_key: Seq<u8> },
    AddAccessKey {
        public_key: Seq<u8>,
        allowance: Option<u128>,
        receiver_id: Seq<char>,
        function_names: Seq<char>,
    },
    DeployContract { code: Seq<u8> },
}

impl View for ReceiptAction {
    type V = ReceiptActionV;

    open spec fn view(&self) -> ReceiptActionV {
        match self {
            ReceiptAction::FunctionCall { call, deposit, static_gas } =>
                ReceiptActionV::FunctionCall { call: call@, deposit: *deposit, static_gas: *static_gas },
            ReceiptAction::Transfer { amount } => ReceiptActionV::Transfer { amount: *amount },
            ReceiptAction::AddFullAccessKey { public_key } => ReceiptActionV::AddFullAccessKey {
                public_key: public_key@,
            },
            ReceiptAction::AddAccessKey { public_key, allowance, receiver_id, function_names } =>
                ReceiptActionV::AddAccessKey {
                    public_key: public_key@,
                    allowance: *allowance,
                    receiver_id: receiver_id@,
                    function_names: function_names@,
                },
            ReceiptAction::DeployContract { code } => ReceiptActionV::DeployContract {
                code: code@,
            },
        }
    }
}

/// The actions one account receives together.
#[derive(Debug)]
pub struct Receipt {
    pub receiver_id: String,
    pub actions: Vec<ReceiptAction>,
}

pub struct ReceiptV {
    pub receiver_id: Seq<char>,
    pub actions: Seq<ReceiptActionV>,
}

impl View for Receipt {
    type V = ReceiptV;

    open spec fn view(&self) -> ReceiptV {
        ReceiptV {
            receiver_id: self.receiver_id@,
            actions: self.actions@.map_values(|a: ReceiptAction| a@),
        }
    }
}

/// Receipts in the order they run; each waits for the one before.
#[derive(Debug)]
pub struct PromisePlan {
    pub receipts: Vec<Receipt>,
}

impl View for PromisePlan {
    type V = Seq<ReceiptV>;

    open spec fn view(&self) -> Seq<ReceiptV> {
        self.receipts@.map_values(|r: Receipt| r@)
    }
}

/// A receipt holding one function call.
pub open spec fn call_receipt(
    receiver: Seq<char>,
    call: CallArgsV,
    deposit: u128,
    static_gas: u64,
) -> ReceiptV {
    ReceiptV {
        receiver_id: receiver,
        actions: seq![ReceiptActionV::FunctionCall { call, deposit, static_gas }],
    }
}

/// A receipt holding one function call.
pub fn call(receiver: String, args: CallArgs, deposit: u128, static_gas: u64) -> (r: Receipt)
    ensures
        r@ == call_receipt(receiver@, args@, deposit, static_gas),
{
    let ghost av = args@;
    let mut actions: Vec<ReceiptAction> = Vec::new();
    actions.push(ReceiptAction::FunctionCall { call: args, deposit, static_gas });
    let r = Receipt { receiver_id: receiver, actions };
    assert(r@.actions =~= seq![ReceiptActionV::FunctionCall { call: av, deposit, static_gas }]);
    r
}

/// A receipt holding the given actions.
pub fn receipt(receiver: String, actions: Vec<ReceiptAction>) -> (r: Receipt)
    ensures
        r@ == (ReceiptV {
            receiver_id: receiver@,
            actions: actions@.map_values(|a: ReceiptAction| a@),
        }),
{
    Receipt { receiver_id: receiver, actions }
}

impl PromisePlan {
    pub fn new() -> (r: PromisePlan)
        ensures
            r@ == Seq::<ReceiptV>::empty(),
    {
        let r = PromisePlan { receipts: Vec::new() };
        assert(r@ =~= Seq::<ReceiptV>::empty());
        r
    }

    /// Appends a receipt that runs after the ones already planned.
    pub fn enqueue(&mut self, r: Receipt)
        ensures
            final(self)@ == old(self)@.push(r@),
    {
        self.receipts.push(r);
        assert(final(self)@ =~= old(self)@.push(r@));
    }
}

/// The outcome of an operation: its result and the events emitted on the way
/// (an operation can emit an event and then fail).
#[derive(Debug)]
pub struct Outcome<T> {
    pub result: Result<T, RelayerError>,
    pub events: Vec<RelayerEvent>,
}

pub fn ok_with<T>(value: T, events: Vec<RelayerEvent>) -> (r: Outcome<T>)
    ensures
        r.result == Ok::<T, RelayerError>(value),
        r.events@ == events@,
{
    Outcome { result: Ok(value), events }
}

pub fn fail<T>(e: RelayerError) -> (r: Outcome<T>)
    ensures
        r.result == Err::<T, RelayerError>(e),
        r.events@ == Seq::<RelayerEvent>::empty(),
{
    let r = Outcome { result: Err(e), events: Vec::new() };
    assert(r.events@ =~= Seq::<RelayerEvent>::empty());
    r
}

/// Fails after reporting the relayer's low balance.
pub fn fail_low_balance<T>(balance: u128) -> (r: Outcome<T>)
    ensures
        r.result == Err::<T, RelayerError>(RelayerError::InsufficientBalance),
        r.events@ == seq![RelayerEvent::LowBalance { balance }],
{
    let mut events: Vec<RelayerEvent> = Vec::new();
    events.push(RelayerEvent::LowBalance { balance });
    let r = Outcome { result: Err(RelayerError::InsufficientBalance), events };
    assert(r.events@ =~= seq![RelayerEvent::LowBalance { balance }]);
    r
}

} // verus!
