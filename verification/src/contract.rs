//! The contract's callbacks and the checks around its public methods: what
//! the relayer does when an earlier promise comes back, the storage charge
//! after a change, upgrades and deposits.
use vstd::prelude::*;
use near_sdk::PromiseError;
use crate::borsh::{delegate_fits, enc_delegate};
use crate::crypto::sha256_digest;
use crate::errors::RelayerError;
use crate::events::RelayerEvent;
use crate::plan::{
    CallArgs, CallArgsV, Outcome, PromisePlan, ReceiptAction, ReceiptActionV, ReceiptV, call,
    call_receipt, fail, ok_with, receipt,
};
use crate::relay::{
    action_effects, action_outcome, error_of, execute_action, gas_alert, gas_alerts,
    signature_check, verify_signature,
};
use crate::balance::transfer_plan;
use crate::state::{Context, Relayer};
use crate::types::{Action, ActionV, SignedDelegateAction, SignedDelegateActionV, action_kind_name};

verus! {

/// The error a cross-contract call came back with.
#[verifier::external_type_specification]
#[verifier::external_body]
pub struct ExPromiseError(PromiseError);

/// What storing `storage_used` more bytes costs, in yoctoNEAR.
pub open spec fn storage_cost(storage_used: int, byte_cost: u128) -> int {
    storage_used * byte_cost
}

/// Whether the balance still covers the minimum plus the storage just used.
pub open spec fn storage_covered(
    storage_before: u64,
    storage_after: u64,
    byte_cost: u128,
    balance: u128,
    min_balance: u128,
) -> bool {
    balance >= min_balance + storage_cost(storage_after - storage_before, byte_cost)
}

/// The check that follows every change of the relayer's configuration: the
/// balance must cover the minimum balance plus the storage the change used.
/// When it does not, the caller emits the returned event and fails with
/// `InsufficientBalance`.
pub fn storage_guard(
    storage_before: u64,
    storage_after: u64,
    byte_cost: u128,
    balance: u128,
    min_balance: u128,
) -> (r: Result<(), RelayerEvent>)
    requires
        storage_before <= storage_after,
        min_balance + storage_cost(storage_after - storage_before, byte_cost) <= u128::MAX,
    ensures
        storage_covered(storage_before, storage_after, byte_cost, balance, min_balance) ==> r is Ok,
        !storage_covered(storage_before, storage_after, byte_cost, balance, min_balance) ==> r
            == Err::<(), RelayerEvent>(RelayerEvent::LowBalance { balance }),
{
    let used: u64 = storage_after - storage_before;
    proof {
        assert(0 <= used * byte_cost) by (nonlinear_arith);
    }
    let cost: u128 = used as u128 * byte_cost;
    if balance < min_balance + cost {
        Err(RelayerEvent::LowBalance { balance })
    } else {
        Ok(())
    }
}

/// The end of a relayed action once it has been carried out: a failed action
/// stays as it is; a successful one is charged for its storage (failing with
/// `InsufficientBalance` after a `LowBalance` event when the balance does not
/// cover it) and then warns when gas runs low.
pub fn finish_action<T>(
    out: Outcome<T>,
    storage_before: u64,
    storage_after: u64,
    byte_cost: u128,
    min_balance: u128,
    ctx: &Context,
) -> (r: Outcome<T>)
    requires
        out.result is Ok ==> storage_before <= storage_after && min_balance + storage_cost(
            storage_after - storage_before,
            byte_cost,
        ) <= u128::MAX,
    ensures
        out.result is Err ==> r == out,
        out.result is Ok && !storage_covered(
            storage_before,
            storage_after,
            byte_cost,
            ctx.account_balance,
            min_balance,
        ) ==> r.result == Err::<T, RelayerError>(RelayerError::InsufficientBalance) && r.events@
            == out.events@.push(RelayerEvent::LowBalance { balance: ctx.account_balance }),
        out.result is Ok && storage_covered(
            storage_before,
            storage_after,
            byte_cost,
            ctx.account_balance,
            min_balance,
        ) ==> r.result == out.result && r.events@ == out.events@ + gas_alert(*ctx),
{
    if out.result.is_err() {
        return out;
    }
    let mut out = out;
    match storage_guard(storage_before, storage_after, byte_cost, ctx.account_balance, min_balance) {
        Err(ev) => {
            out.events.push(ev);
            Outcome { result: Err(RelayerError::InsufficientBalance), events: out.events }
        },
        Ok(()) => {
            let mut alerts = gas_alerts(ctx);
            out.events.append(&mut alerts);
            out
        },
    }
}

/// What the auth check of a relayed action gives: the auth contract must
/// have authorized the key, and the action must carry a valid signature of
/// its own Borsh bytes.
pub open spec fn auth_check(sd: SignedDelegateActionV, is_authorized: bool) -> Result<
    (),
    RelayerError,
> {
    if !is_authorized {
        Err(RelayerError::Unauthorized)
    } else if !delegate_fits(sd.delegate_action) {
        Err(RelayerError::InvalidNonce)
    } else {
        signature_check(sd, sha256_digest(enc_delegate(sd.delegate_action)))
    }
}

/// The callback the relayer schedules after carrying out a relayed action:
/// signing requests report to `handle_mpc_signature`, bridge transfers to
/// `handle_bridge_transfer_result`, everything else to `handle_bridge_result`.
pub open spec fn auth_callback(
    relayer: Relayer,
    a: ActionV,
    sender: Seq<char>,
    request_id: u64,
    current_account: Seq<char>,
) -> ReceiptV {
    let args = match a {
        ActionV::ChainSignatureRequest { target_chain, .. } => CallArgsV::HandleMpcSignature {
            chain: target_chain,
            request_id,
            result: Seq::empty(),
        },
        ActionV::BridgeTransfer { token, amount, destination_chain, recipient } =>
            CallArgsV::HandleBridgeTransferResult {
            sender_id: sender,
            token,
            amount,
            destination_chain,
            recipient,
            signature: Seq::empty(),
        },
        _ => CallArgsV::HandleBridgeResult {
            sender_id: sender,
            action_type: action_kind_name(a),
            result: Seq::empty(),
        },
    };
    call_receipt(current_account, args, 0, relayer.cross_contract_gas)
}

/// Whether a bridge transfer waits on `chain` under the chain's current
/// nonce.
pub open spec fn transfer_waiting(relayer: Relayer, chain: Seq<char>) -> bool {
    &&& relayer.pending_transfers@.contains_key(chain)
    &&& relayer.pending_transfers@[chain].nonce == relayer.nonce_of(chain)
}

/// What settling the bridge transfer on `chain` does: the waiting transfer,
/// if any, is dropped, and when it succeeded the chain's nonce moves one
/// past it. Nothing else changes.
pub open spec fn settle_effects(
    before: Relayer,
    after: Relayer,
    chain: Seq<char>,
    succeeded: bool,
) -> bool {
    let waiting = transfer_waiting(before, chain);
    &&& after.pending_transfers@ == if waiting {
        before.pending_transfers@.remove(chain)
    } else {
        before.pending_transfers@
    }
    &&& after.transfer_nonces@ == if waiting && succeeded {
        before.transfer_nonces@.insert(chain, (before.nonce_of(chain) + 1) as u64)
    } else {
        before.transfer_nonces@
    }
    &&& after == (Relayer {
        pending_transfers: after.pending_transfers,
        transfer_nonces: after.transfer_nonces,
        ..before
    })
}

/// What a failed bridge transfer gives back: the fee it was charged, if any,
/// sent to `sender`.
pub open spec fn refund_plan(relayer: Relayer, chain: Seq<char>, sender: Seq<char>) -> Seq<ReceiptV> {
    if transfer_waiting(relayer, chain) && relayer.pending_transfers@[chain].fee > 0 {
        transfer_plan(sender, relayer.pending_transfers@[chain].fee)
    } else {
        Seq::empty()
    }
}

/// Whether carrying out a relayed action can go ahead without aborting the
/// call: once the auth check passes, there must be an action, at least 250
/// TGas attached, no access key with a zero allowance, and for a bridge
/// transfer a minimum balance plus fee that fits in 128 bits.
pub open spec fn auth_runnable(
    relayer: Relayer,
    sd: SignedDelegateAction,
    is_authorized: bool,
    ctx: Context,
) -> bool {
    auth_check(sd@, is_authorized) is Ok ==> {
        let actions = sd.delegate_action.actions@;
        &&& actions.len() > 0
        &&& ctx.prepaid_gas_tgas >= 250
        &&& actions[0] matches Action::AddKey { allowance, .. } ==> allowance != Some(0u128)
        &&& actions[0] is BridgeTransfer ==> relayer.min_balance + relayer.base_fee <= u128::MAX
    }
}

/// What handling the auth contract's answer gives: the auth check's error,
/// with nothing changed; or the first action carried out under the block
/// timestamp as request id, with the callback that reports it chained after.
pub open spec fn auth_result(
    before: Relayer,
    after: Relayer,
    sender_id: String,
    sd: SignedDelegateAction,
    is_authorized: bool,
    ctx: Context,
    r: Outcome<PromisePlan>,
) -> bool {
    match auth_check(sd@, is_authorized) {
        Err(e) => {
            &&& r.result matches Err(x) && x == e
            &&& r.events@ == Seq::<RelayerEvent>::empty()
            &&& after == before
        },
        Ok(_) => {
            let a = sd.delegate_action.actions@[0];
            let rid = ctx.block_timestamp;
            &&& action_effects(before, after, r.events@, a, sender_id, error_of(r.result), ctx)
            &&& match action_outcome(before, a@, sender_id@, Some(rid), ctx) {
                Err(e) => r.result matches Err(x) && x == e,
                Ok(p) => r.result matches Ok(plan) && plan@ == p.push(
                    auth_callback(before, a@, sender_id@, rid, ctx.current_account_id@),
                ),
            }
        },
    }
}

/// Why handling the auth contract's answer aborts the call.
#[derive(Clone, Copy, Debug, PartialEq, Eq, Structural)]
pub enum AuthAbort {
    /// The delegate action holds no action.
    NoAction,
    /// Less than 250 TGas were attached.
    GasTooLow,
    /// An access key with a zero allowance was asked for.
    ZeroAllowance,
    /// The minimum balance plus the fee does not fit in 128 bits.
    BalanceOverflow,
}

/// The storage deposit the relayer pays to register an account with a
/// token, in yoctoNEAR (0.00125 NEAR).
pub const STORAGE_DEPOSIT: u128 = 1_250_000_000_000_000_000_000;

impl Relayer {
    /// Reports what the signing contract returned for a chain-signature
    /// request; a failed call reports an empty result.
    pub fn handle_mpc_signature(
        &mut self,
        chain: String,
        request_id: u64,
        result: Vec<u8>,
        call_result: Result<(), PromiseError>,
    ) -> (r: RelayerEvent)
        ensures
            *final(self) == *old(self),
            r matches RelayerEvent::CrossChainSignatureResult { chain: c, request_id: q, result: res }
                && c == chain && q == request_id && res@ == if call_result is Err {
                Seq::<u8>::empty()
            } else {
                result@
            },
    {
        if call_result.is_err() {
            return RelayerEvent::CrossChainSignatureResult { chain, request_id, result: Vec::new() };
        }
        RelayerEvent::CrossChainSignatureResult { chain, request_id, result }
    }

    /// Reports how a relayed action ended; a failed call reports an empty
    /// result.
    pub fn handle_bridge_result(
        &mut self,
        sender_id: String,
        action_type: String,
        result: Vec<u8>,
        call_result: Result<(), PromiseError>,
    ) -> (r: RelayerEvent)
        ensures
            *final(self) == *old(self),
            r matches RelayerEvent::BridgeResult { sender_id: s, action_type: t, result: res } && s
                == sender_id && t == action_type && res@ == if call_result is Err {
                Seq::<u8>::empty()
            } else {
                result@
            },
    {
        if call_result.is_err() {
            return RelayerEvent::BridgeResult { sender_id, action_type, result: Vec::new() };
        }
        RelayerEvent::BridgeResult { sender_id, action_type, result }
    }

    /// Settles the bridge transfer waiting on `destination_chain` under its
    /// current nonce. When the lock or signing failed, the transfer is
    /// dropped and its fee, if any, refunded to the sender; otherwise it is
    /// confirmed and the chain's nonce moves past it.
    pub fn handle_bridge_transfer_result(
        &mut self,
        sender_id: String,
        token: String,
        amount: u128,
        destination_chain: String,
        recipient: String,
        signature: Vec<u8>,
        call_result: Result<(), PromiseError>,
    ) -> (r: (PromisePlan, RelayerEvent))
        requires
            call_result is Ok ==> old(self).nonce_of(destination_chain@) < u64::MAX,
        ensures
            settle_effects(*old(self), *final(self), destination_chain@, call_result is Ok),
            call_result is Err ==> r.1 == (RelayerEvent::BridgeTransferFailed {
                token,
                amount,
                destination_chain,
                recipient,
                sender: sender_id,
                nonce: old(self).nonce_of(destination_chain@),
            }) && r.0@ == refund_plan(*old(self), destination_chain@, sender_id@),
            call_result is Ok ==> r.1 == (RelayerEvent::BridgeTransferCompleted {
                token,
                amount,
                destination_chain,
                recipient,
                sender: sender_id,
                signature,
            }) && r.0@ == Seq::<ReceiptV>::empty(),
    {
        let nonce = self.get_pending_nonce(&destination_chain);
        if call_result.is_err() {
            let mut plan = PromisePlan::new();
            match self.revert_pending_transfer(&destination_chain, nonce) {
                Some(pending) => {
                    if pending.fee > 0 {
                        let mut actions: Vec<ReceiptAction> = Vec::new();
                        actions.push(ReceiptAction::Transfer { amount: pending.fee });
                        let ghost fee = pending.fee;
                        assert(actions@.map_values(|a: ReceiptAction| a@) =~= seq![
                            ReceiptActionV::Transfer { amount: fee },
                        ]);
                        plan.enqueue(receipt(sender_id.clone(), actions));
                    }
                },
                None => {},
            }
            let ev = RelayerEvent::BridgeTransferFailed {
                token,
                amount,
                destination_chain,
                recipient,
                sender: sender_id,
                nonce,
            };
            return (plan, ev);
        }
        self.confirm_pending_transfer(&destination_chain, nonce);
        let ev = RelayerEvent::BridgeTransferCompleted {
            token,
            amount,
            destination_chain,
            recipient,
            sender: sender_id,
            signature,
        };
        (PromisePlan::new(), ev)
    }

    /// Carries out a relayed action once the auth contract has answered:
    /// the key must be authorized and the signature valid; then the first
    /// action runs under a request id taken from the block timestamp, and a
    /// callback reporting its result is chained after it.
    pub fn handle_auth_result(
        &mut self,
        sender_id: String,
        signed_delegate: SignedDelegateAction,
        is_authorized: bool,
        ctx: &Context,
    ) -> (r: Outcome<PromisePlan>)
        requires
            auth_runnable(*old(self), signed_delegate, is_authorized, *ctx),
        ensures
            auth_result(*old(self), *final(self), sender_id, signed_delegate, is_authorized, *ctx, r),
    {
        if !is_authorized {
            return fail(RelayerError::Unauthorized);
        }
        let payload = match crate::borsh::encode_delegate_action(&signed_delegate.delegate_action) {
            Some(p) => p,
            None => {
                return fail(RelayerError::InvalidNonce);
            },
        };
        let tx_hash = crate::crypto::sha256(payload.as_slice());
        match verify_signature(&signed_delegate, tx_hash.as_slice()) {
            Err(e) => {
                return fail(e);
            },
            Ok(()) => {},
        }
        let action = &signed_delegate.delegate_action.actions[0];
        let request_id = ctx.block_timestamp;
        let gas = self.cross_contract_gas;
        let mut out = execute_action(
            self,
            action,
            &sender_id,
            action.kind_name(),
            Some(request_id),
            ctx,
        );
        let mut plan = match out.result {
            Ok(p) => p,
            Err(e) => {
                return Outcome { result: Err(e), events: out.events };
            },
        };
        let args = match action {
            Action::ChainSignatureRequest { target_chain, .. } => CallArgs::HandleMpcSignature {
                chain: target_chain.clone(),
                request_id,
                result: Vec::new(),
            },
            Action::BridgeTransfer { token, amount, destination_chain, recipient } =>
                CallArgs::HandleBridgeTransferResult {
                sender_id: sender_id.clone(),
                token: token.clone(),
                amount: *amount,
                destination_chain: destination_chain.clone(),
                recipient: recipient.clone(),
                signature: Vec::new(),
            },
            _ => CallArgs::HandleBridgeResult {
                sender_id: sender_id.clone(),
                action_type: action.kind_name().to_string(),
                result: Vec::new(),
            },
        };
        plan.enqueue(call(ctx.current_account_id.clone(), args, 0, gas));
        ok_with(plan, out.events)
    }

    /// Handles the auth contract's answer like `handle_auth_result`, or says
    /// why the call aborts instead (and changes nothing).
    pub fn try_handle_auth_result(
        &mut self,
        sender_id: String,
        signed_delegate: SignedDelegateAction,
        is_authorized: bool,
        ctx: &Context,
    ) -> (r: Result<Outcome<PromisePlan>, AuthAbort>)
        ensures
            auth_runnable(*old(self), signed_delegate, is_authorized, *ctx) <==> r is Ok,
            r matches Ok(out) ==> auth_result(
                *old(self),
                *final(self),
                sender_id,
                signed_delegate,
                is_authorized,
                *ctx,
                out,
            ),
            r matches Err(abort) ==> *final(self) == *old(self) && match abort {
                AuthAbort::NoAction => signed_delegate.delegate_action.actions@.len() == 0,
                AuthAbort::GasTooLow => ctx.prepaid_gas_tgas < 250,
                AuthAbort::ZeroAllowance => signed_delegate.delegate_action.actions@[0] matches Action::AddKey {
                    allowance,
                    ..
                } && allowance == Some(0u128),
                AuthAbort::BalanceOverflow => old(self).min_balance + old(self).base_fee > u128::MAX,
            },
    {
        let passes = is_authorized && match crate::borsh::encode_delegate_action(
            &signed_delegate.delegate_action,
        ) {
            Some(payload) => verify_signature(
                &signed_delegate,
                crate::crypto::sha256(payload.as_slice()).as_slice(),
            ).is_ok(),
            None => false,
        };
        if passes {
            if signed_delegate.delegate_action.actions.len() == 0 {
                return Err(AuthAbort::NoAction);
            }
            if ctx.prepaid_gas_tgas < 250 {
                return Err(AuthAbort::GasTooLow);
            }
            match &signed_delegate.delegate_action.actions[0] {
                Action::AddKey { allowance: Some(0), .. } => {
                    return Err(AuthAbort::ZeroAllowance);
                },
                Action::BridgeTransfer { .. } => {
                    if self.min_balance > u128::MAX - self.base_fee {
                        return Err(AuthAbort::BalanceOverflow);
                    }
                },
                _ => {},
            }
        }
        Ok(self.handle_auth_result(sender_id, signed_delegate, is_authorized, ctx))
    }

    /// Registers an account with a token when the wrapper reports it is not
    /// registered yet, paying the storage deposit; otherwise schedules
    /// nothing.
    pub fn handle_registration(
        &mut self,
        account_id: String,
        token: String,
        _is_sender: bool,
        is_registered: bool,
        ctx: &Context,
    ) -> (r: PromisePlan)
        ensures
            *final(self) == *old(self),
            !is_registered ==> r@ == seq![
                call_receipt(
                    old(self).ft_wrapper_contract@,
                    CallArgsV::StorageDeposit {
                        token: token@,
                        account_id: account_id@,
                        deposit: STORAGE_DEPOSIT,
                    },
                    STORAGE_DEPOSIT,
                    old(self).cross_contract_gas,
                ),
            ],
            is_registered ==> r@ == seq![
                ReceiptV {
                    receiver_id: ctx.current_account_id@,
                    actions: Seq::<ReceiptActionV>::empty(),
                },
            ],
    {
        let mut plan = PromisePlan::new();
        if !is_registered {
            plan.enqueue(
                call(
                    self.ft_wrapper_contract.clone(),
                    CallArgs::StorageDeposit { token, account_id, deposit: STORAGE_DEPOSIT },
                    STORAGE_DEPOSIT,
                    self.cross_contract_gas,
                ),
            );
        } else {
            let actions: Vec<ReceiptAction> = Vec::new();
            assert(actions@.map_values(|a: ReceiptAction| a@) =~= Seq::<ReceiptActionV>::empty());
            plan.enqueue(receipt(ctx.current_account_id.clone(), actions));
        }
        plan
    }

    /// Deploys new code on the relayer's own account and then calls its
    /// `migrate`; only the manager may, and the code must be given.
    pub fn update_contract(&self, code: Option<Vec<u8>>, ctx: &Context) -> (r: Outcome<PromisePlan>)
        ensures
            self.manager@ != ctx.predecessor_account_id@ ==> r.result == Err::<
                PromisePlan,
                RelayerError,
            >(RelayerError::Unauthorized) && r.events@ == Seq::<RelayerEvent>::empty(),
            self.manager@ == ctx.predecessor_account_id@ && code is None ==> r.result == Err::<
                PromisePlan,
                RelayerError,
            >(RelayerError::MissingInput) && r.events@ == Seq::<RelayerEvent>::empty(),
            self.manager@ == ctx.predecessor_account_id@ && code is Some ==> {
                &&& r.result matches Ok(p) && p@ == seq![
                    ReceiptV {
                        receiver_id: ctx.current_account_id@,
                        actions: seq![
                            ReceiptActionV::DeployContract { code: code.unwrap()@ },
                            ReceiptActionV::FunctionCall {
                                call: CallArgsV::Raw {
                                    method_name: "migrate"@,
                                    args: Seq::empty(),
                                },
                                deposit: 0,
                                static_gas: self.migration_gas,
                            },
                        ],
                    },
                ]
                &&& r.events@ == seq![
                    RelayerEvent::ContractUpgraded {
                        manager: ctx.predecessor_account_id,
                        timestamp: ctx.block_timestamp_ms,
                    },
                ]
            },
    {
        let caller = &ctx.predecessor_account_id;
        if !self.is_manager(caller) {
            return fail(RelayerError::Unauthorized);
        }
        let code = match code {
            Some(c) => c,
            None => {
                return fail(RelayerError::MissingInput);
            },
        };
        let ghost code_view = code@;
        let mut events: Vec<RelayerEvent> = Vec::new();
        events.push(
            RelayerEvent::ContractUpgraded {
                manager: caller.clone(),
                timestamp: ctx.block_timestamp_ms,
            },
        );
        let mut actions: Vec<ReceiptAction> = Vec::new();
        actions.push(ReceiptAction::DeployContract { code });
        actions.push(
            ReceiptAction::FunctionCall {
                call: CallArgs::Raw { method_name: "migrate".to_string(), args: Vec::new() },
                deposit: 0,
                static_gas: self.migration_gas,
            },
        );
        proof {
            reveal_strlit("migrate");
        }
        let ghost expected_actions = seq![
            ReceiptActionV::DeployContract { code: code_view },
            ReceiptActionV::FunctionCall {
                call: CallArgsV::Raw { method_name: "migrate"@, args: Seq::empty() },
                deposit: 0,
                static_gas: self.migration_gas,
            },
        ];
        assert(actions@.map_values(|a: ReceiptAction| a@) =~= expected_actions);
        let mut plan = PromisePlan::new();
        plan.enqueue(receipt(ctx.current_account_id.clone(), actions));
        assert(events@ =~= seq![
            RelayerEvent::ContractUpgraded {
                manager: ctx.predecessor_account_id,
                timestamp: ctx.block_timestamp_ms,
            },
        ]);
        ok_with(plan, events)
    }
}

} // verus!
