//! Relaying meta-transactions: checking a signed delegate action, and the
//! promise chain that asks the signing and auth contracts before the relayer
//! acts on it.
use vstd::prelude::*;
use crate::borsh::{
    bridge_payload_fits, delegate_fits, enc_bridge_payload, enc_delegate, enc_sign_request,
    encode_bridge_payload, encode_delegate_action, encode_error, encode_sign_request, error_index,
    fits_len, string_fits,
};
use crate::crypto::{ed25519_accepts, ed25519_verify, sha256, sha256_digest};
use crate::errors::RelayerError;
use crate::events::RelayerEvent;
use crate::plan::{
    CallArgs, CallArgsV, Outcome, PromisePlan, ReceiptAction, ReceiptActionV, ReceiptV, call,
    call_receipt, fail, fail_low_balance, ok_with, receipt,
};
use crate::state::{Context, PendingTransfer, RELAY_GAS_COST, Relayer, default_mpc_contract};
use crate::text::{base64_encode, base64_standard};
use crate::types::{
    Action, ActionV, DelegateActionV, PublicKey, SignedDelegateAction, SignedDelegateActionV,
    bytes_equal, copy_byte_lists, copy_bytes, is_ed25519_key, opt_str_view, strings_view,
    sub_bytes,
};

verus! {

/// What checking a signed delegate action against a transaction hash gives:
/// the action must be writable in Borsh, its SHA-256 must be the hash, and
/// the ed25519 key (tag 0, 32 bytes) must have signed those Borsh bytes.
pub open spec fn signature_check(sd: SignedDelegateActionV, tx_hash: Seq<u8>) -> Result<
    (),
    RelayerError,
> {
    let message = enc_delegate(sd.delegate_action);
    if !delegate_fits(sd.delegate_action) {
        Err(RelayerError::InvalidNonce)
    } else if sha256_digest(message) != tx_hash {
        Err(RelayerError::InvalidSignature)
    } else if sd.signature.len() != 64 || !is_ed25519_key(sd.public_key) || !ed25519_accepts(
        sd.public_key.subrange(1, 33),
        message,
        sd.signature,
    ) {
        Err(RelayerError::Unauthorized)
    } else {
        Ok(())
    }
}

/// Checks that `signed_delegate` hashes to `tx_hash` and carries a valid
/// signature by its key.
pub fn verify_signature(signed_delegate: &SignedDelegateAction, tx_hash: &[u8]) -> (r: Result<
    (),
    RelayerError,
>)
    ensures
        r == signature_check(signed_delegate@, tx_hash@),
{
    let payload = match encode_delegate_action(&signed_delegate.delegate_action) {
        Some(p) => p,
        None => {
            return Err(RelayerError::InvalidNonce);
        },
    };
    let digest = sha256(payload.as_slice());
    if !bytes_equal(digest.as_slice(), tx_hash) {
        return Err(RelayerError::InvalidSignature);
    }
    if signed_delegate.signature.len() != 64 {
        return Err(RelayerError::Unauthorized);
    }
    let key_bytes = &signed_delegate.public_key.data;
    if key_bytes.len() != 33 || key_bytes[0] != 0 {
        return Err(RelayerError::Unauthorized);
    }
    let ed_key = sub_bytes(key_bytes, 1, 33);
    if !ed25519_verify(ed_key.as_slice(), payload.as_slice(), signed_delegate.signature.as_slice()) {
        return Err(RelayerError::Unauthorized);
    }
    Ok(())
}

/// The transaction hash the signing contract is asked about: standard
/// base64 of the SHA-256 of the delegate action's Borsh bytes.
pub open spec fn tx_hash_text(d: DelegateActionV) -> Seq<char> {
    base64_standard(sha256_digest(enc_delegate(d)))
}

/// The signing contract the relayer asks for nonces.
pub open spec fn nonce_signer(relayer: Relayer) -> Seq<char> {
    match relayer.mpc_of("testnet"@) {
        Some(a) => a,
        None => default_mpc_contract(),
    }
}

/// The chain that relays one meta-transaction: ask the signing contract for
/// a nonce, then the auth contract whether the key is authorized, then hand
/// the result back to the relayer.
pub open spec fn relay_plan(
    relayer: Relayer,
    sd: SignedDelegateActionV,
    current_account: Seq<char>,
) -> Seq<ReceiptV> {
    let sender = sd.delegate_action.sender_id;
    let gas = relayer.cross_contract_gas;
    seq![
        call_receipt(
            nonce_signer(relayer),
            CallArgsV::GetNonce { account_id: sender, tx_hash: tx_hash_text(sd.delegate_action) },
            0,
            gas,
        ),
        call_receipt(
            relayer.auth_contract@,
            CallArgsV::IsAuthorized {
                account_id: sender,
                public_key: sd.public_key,
                signatures: sd.multi_signatures,
            },
            0,
            gas,
        ),
        call_receipt(
            current_account,
            CallArgsV::HandleAuthResult { sender_id: sender, signed_delegate: sd, is_authorized: true },
            0,
            gas,
        ),
    ]
}

/// Gas left for the call, in TGas.
pub open spec fn remaining_tgas(ctx: Context) -> u64 {
    if ctx.prepaid_gas_tgas >= ctx.used_gas_tgas {
        (ctx.prepaid_gas_tgas - ctx.used_gas_tgas) as u64
    } else {
        0
    }
}

/// The warning emitted when less than 50 TGas are left.
pub open spec fn gas_alert(ctx: Context) -> Seq<RelayerEvent> {
    if remaining_tgas(ctx) < 50 {
        seq![RelayerEvent::LowGas { remaining_gas: remaining_tgas(ctx) }]
    } else {
        Seq::empty()
    }
}

/// Warns when less than 50 TGas are left.
pub fn gas_alerts(ctx: &Context) -> (r: Vec<RelayerEvent>)
    ensures
        r@ == gas_alert(*ctx),
{
    let remaining = ctx.prepaid_gas_tgas.saturating_sub(ctx.used_gas_tgas);
    let mut r: Vec<RelayerEvent> = Vec::new();
    if remaining < 50 {
        r.push(RelayerEvent::LowGas { remaining_gas: remaining });
    }
    assert(r@ =~= gas_alert(*ctx));
    r
}

/// Builds [`relay_plan`] for one meta-transaction.
fn relay_chain(relayer: &Relayer, signed_delegate: SignedDelegateAction, ctx: &Context) -> (r: Option<
    PromisePlan,
>)
    ensures
        r is Some <==> delegate_fits(signed_delegate@.delegate_action),
        r matches Some(p) ==> p@ == relay_plan(*relayer, signed_delegate@, ctx.current_account_id@),
{
    let ghost sd = signed_delegate@;
    let payload = match encode_delegate_action(&signed_delegate.delegate_action) {
        Some(p) => p,
        None => {
            return None;
        },
    };
    let digest = sha256(payload.as_slice());
    let tx_hash = base64_encode(digest.as_slice());
    let sender = signed_delegate.delegate_action.sender_id.clone();
    let key: PublicKey = signed_delegate.public_key.copy();
    let signatures = copy_byte_lists(&signed_delegate.multi_signatures);
    let gas = relayer.cross_contract_gas;
    let mut plan = PromisePlan::new();
    plan.enqueue(
        call(
            relayer.default_signer(),
            CallArgs::GetNonce { account_id: sender.clone(), tx_hash },
            0,
            gas,
        ),
    );
    plan.enqueue(
        call(
            relayer.auth_contract.clone(),
            CallArgs::IsAuthorized { account_id: sender.clone(), public_key: key, signatures },
            0,
            gas,
        ),
    );
    plan.enqueue(
        call(
            ctx.current_account_id.clone(),
            CallArgs::HandleAuthResult {
                sender_id: sender,
                signed_delegate,
                is_authorized: true,
            },
            0,
            gas,
        ),
    );
    assert(plan@ =~= relay_plan(*relayer, sd, ctx.current_account_id@));
    Some(plan)
}

/// What relaying a meta-transaction takes from the gas pool: the relay
/// cost, twice when it carries a fee action.
pub open spec fn relay_cost(sd: SignedDelegateActionV) -> int {
    if sd.fee_action is Some {
        2 * RELAY_GAS_COST
    } else {
        RELAY_GAS_COST as int
    }
}

/// Whether the relayer's funds cover spending `cost`: its balance is not
/// below its minimum, and its gas pool holds the cost on top of its minimum.
pub open spec fn funds_cover(relayer: Relayer, ctx: Context, cost: int) -> bool {
    &&& ctx.account_balance >= relayer.min_balance
    &&& relayer.gas_pool >= relayer.min_gas_pool + cost
}

/// Why the relayer's funds do not cover spending `cost`, if they do not: a
/// balance below its minimum, else a gas pool short of the cost on top of
/// its minimum.
pub open spec fn funds_refusal(relayer: Relayer, ctx: Context, cost: int) -> Option<RelayerError> {
    if ctx.account_balance < relayer.min_balance {
        Some(RelayerError::InsufficientBalance)
    } else if relayer.gas_pool < relayer.min_gas_pool + cost {
        Some(RelayerError::InsufficientGasPool)
    } else {
        None
    }
}

/// The events of a refusal: a refusal for a balance below its minimum
/// reports the low balance.
pub open spec fn refusal_events(relayer: Relayer, ctx: Context, e: RelayerError) -> Seq<
    RelayerEvent,
> {
    if e == RelayerError::InsufficientBalance && ctx.account_balance < relayer.min_balance {
        seq![RelayerEvent::LowBalance { balance: ctx.account_balance }]
    } else {
        Seq::empty()
    }
}

/// Why relaying a single meta-transaction that costs `cost` is refused
/// before anything is sent, if it is.
pub open spec fn relay_refusal_at(
    relayer: Relayer,
    sd: SignedDelegateActionV,
    ctx: Context,
    cost: int,
) -> Option<RelayerError> {
    if relayer.paused {
        Some(RelayerError::ContractPaused)
    } else if sd.delegate_action.actions.len() > 1 {
        Some(RelayerError::InvalidNonce)
    } else if ctx.signer_account_id@ != sd.delegate_action.sender_id {
        Some(RelayerError::Unauthorized)
    } else if funds_refusal(relayer, ctx, cost) is Some {
        funds_refusal(relayer, ctx, cost)
    } else if !delegate_fits(sd.delegate_action) {
        Some(RelayerError::InvalidNonce)
    } else {
        None
    }
}

/// Why a single meta-transaction is refused before anything is sent, if it is.
pub open spec fn relay_refusal(relayer: Relayer, sd: SignedDelegateActionV, ctx: Context) -> Option<
    RelayerError,
> {
    relay_refusal_at(relayer, sd, ctx, relay_cost(sd))
}

/// Whether `funds_cover` holds for `cost`, refusing as the relay does.
pub(crate) fn check_funds<T>(relayer: &Relayer, ctx: &Context, cost: u128) -> (r: Option<Outcome<T>>)
    ensures
        funds_cover(*relayer, *ctx, cost as int) <==> r is None,
        funds_refusal(*relayer, *ctx, cost as int) is None <==> r is None,
        r matches Some(out) ==> out.result == Err::<T, RelayerError>(
            funds_refusal(*relayer, *ctx, cost as int).unwrap(),
        ) && out.events@ == refusal_events(
            *relayer,
            *ctx,
            funds_refusal(*relayer, *ctx, cost as int).unwrap(),
        ),
{
    if ctx.account_balance < relayer.min_balance {
        return Some(fail_low_balance(ctx.account_balance));
    }
    if relayer.gas_pool < relayer.min_gas_pool || relayer.gas_pool - relayer.min_gas_pool < cost {
        return Some(fail(RelayerError::InsufficientGasPool));
    }
    None
}

/// Relays one meta-transaction that costs `cost` from the gas pool.
pub(crate) fn relay_at(
    relayer: &mut Relayer,
    signed_delegate: SignedDelegateAction,
    ctx: &Context,
    cost: u128,
) -> (r: Outcome<PromisePlan>)
    ensures
        match relay_refusal_at(*old(relayer), signed_delegate@, *ctx, cost as int) {
            Some(e) => {
                &&& r.result matches Err(x) && x == e
                &&& r.events@ == refusal_events(*old(relayer), *ctx, e)
                &&& *final(relayer) == *old(relayer)
            },
            None => {
                &&& r.result matches Ok(p) && p@ == relay_plan(
                    *old(relayer),
                    signed_delegate@,
                    ctx.current_account_id@,
                )
                &&& r.events@ == gas_alert(*ctx)
                &&& *final(relayer) == (Relayer {
                    gas_pool: (old(relayer).gas_pool - cost) as u128,
                    ..*old(relayer)
                })
            },
        },
{
    if relayer.paused {
        return fail(RelayerError::ContractPaused);
    }
    if signed_delegate.delegate_action.actions.len() > 1 {
        return fail(RelayerError::InvalidNonce);
    }
    if ctx.signer_account_id != signed_delegate.delegate_action.sender_id {
        return fail(RelayerError::Unauthorized);
    }
    if let Some(refused) = check_funds(relayer, ctx, cost) {
        return refused;
    }
    match relay_chain(relayer, signed_delegate, ctx) {
        Some(plan) => {
            relayer.gas_pool = relayer.gas_pool - cost;
            ok_with(plan, gas_alerts(ctx))
        },
        None => fail(RelayerError::InvalidNonce),
    }
}

/// The relay cost of a meta-transaction.
pub fn relay_cost_of(signed_delegate: &SignedDelegateAction) -> (r: u128)
    ensures
        r == relay_cost(signed_delegate@),
{
    if signed_delegate.fee_action.is_some() {
        2 * RELAY_GAS_COST
    } else {
        RELAY_GAS_COST
    }
}

/// Relays one meta-transaction: the relayer must not be paused, the
/// transaction must carry at most one action and be signed by its sender,
/// the relayer's balance must be at its minimum and its gas pool must hold
/// the relay cost on top of its minimum, which the relay takes from it.
pub fn relay_meta_transaction(
    relayer: &mut Relayer,
    signed_delegate: SignedDelegateAction,
    ctx: &Context,
) -> (r: Outcome<PromisePlan>)
    requires
        ctx.prepaid_gas_tgas >= 250,
    ensures
        match relay_refusal(*old(relayer), signed_delegate@, *ctx) {
            Some(e) => {
                &&& r.result matches Err(x) && x == e
                &&& r.events@ == refusal_events(*old(relayer), *ctx, e)
                &&& *final(relayer) == *old(relayer)
            },
            None => {
                &&& r.result matches Ok(p) && p@ == relay_plan(
                    *old(relayer),
                    signed_delegate@,
                    ctx.current_account_id@,
                )
                &&& r.events@ == gas_alert(*ctx)
                &&& *final(relayer) == (Relayer {
                    gas_pool: (old(relayer).gas_pool - relay_cost(signed_delegate@)) as u128,
                    ..*old(relayer)
                })
            },
        },
{
    let cost = relay_cost_of(&signed_delegate);
    relay_at(relayer, signed_delegate, ctx, cost)
}

/// Why one meta-transaction of a batch is refused, if it is.
pub open spec fn batch_item_refusal(sd: SignedDelegateActionV, signer: Seq<char>) -> Option<
    RelayerError,
> {
    if signer != sd.delegate_action.sender_id {
        Some(RelayerError::Unauthorized)
    } else if !delegate_fits(sd.delegate_action) {
        Some(RelayerError::InvalidNonce)
    } else {
        None
    }
}

/// Item `i` is the first refused one of the batch.
pub open spec fn first_refused(ds: Seq<SignedDelegateActionV>, signer: Seq<char>, i: int) -> bool {
    &&& 0 <= i < ds.len()
    &&& batch_item_refusal(ds[i], signer) is Some
    &&& forall|j: int| 0 <= j < i ==> #[trigger] batch_item_refusal(ds[j], signer) is None
}

pub open spec fn delegates_view(v: Seq<SignedDelegateAction>) -> Seq<SignedDelegateActionV> {
    v.map_values(|d: SignedDelegateAction| d@)
}

/// The chains of a batch of meta-transactions, before the gas pool is
/// charged: see `relay_meta_transactions`.
fn plan_batch(
    relayer: &Relayer,
    signed_delegates: Vec<SignedDelegateAction>,
    ctx: &Context,
) -> (r: Outcome<Vec<PromisePlan>>)
    requires
        ctx.prepaid_gas_tgas >= 250,
    ensures
        ({
            let ds = delegates_view(signed_delegates@);
            if relayer.paused {
                r.result matches Err(e) && e == RelayerError::ContractPaused && r.events@
                    == Seq::<RelayerEvent>::empty()
            } else if ds.len() == 0 || ds.len() > relayer.chunk_size {
                r.result matches Err(e) && e == RelayerError::InvalidNonce && r.events@
                    == Seq::<RelayerEvent>::empty()
            } else if ctx.account_balance < relayer.min_balance {
                r.result matches Err(e) && e == RelayerError::InsufficientBalance && r.events@
                    == seq![RelayerEvent::LowBalance { balance: ctx.account_balance }]
            } else if exists|i: int| #[trigger] first_refused(ds, ctx.signer_account_id@, i) {
                &&& exists|i: int|
                    #[trigger] first_refused(ds, ctx.signer_account_id@, i) && r.result == Err::<
                        Vec<PromisePlan>,
                        RelayerError,
                    >(batch_item_refusal(ds[i], ctx.signer_account_id@).unwrap())
                &&& r.events@ == Seq::<RelayerEvent>::empty()
            } else {
                &&& r.result matches Ok(plans) && plans@.len() == ds.len() && forall|i: int|
                    0 <= i < ds.len() ==> (#[trigger] plans@[i])@ == relay_plan(
                        *relayer,
                        ds[i],
                        ctx.current_account_id@,
                    )
                &&& r.events@ == gas_alert(*ctx)
            }
        }),
{
    let ghost ds = delegates_view(signed_delegates@);
    if relayer.paused {
        return fail(RelayerError::ContractPaused);
    }
    if signed_delegates.len() == 0 || signed_delegates.len() > relayer.chunk_size {
        return fail(RelayerError::InvalidNonce);
    }
    if ctx.account_balance < relayer.min_balance {
        return fail_low_balance(ctx.account_balance);
    }
    let n = signed_delegates.len();
    let mut rest = signed_delegates;
    let mut plans: Vec<PromisePlan> = Vec::new();
    let mut i: usize = 0;
    while i < n
        invariant
            i <= n,
            n == ds.len(),
            ds == delegates_view(signed_delegates@),
            0 < n <= relayer.chunk_size,
            !relayer.paused,
            ctx.account_balance >= relayer.min_balance,
            delegates_view(rest@) == ds.skip(i as int),
            rest@.len() == n - i,
            plans@.len() == i,
            forall|j: int| 0 <= j < i ==> #[trigger] batch_item_refusal(ds[j], ctx.signer_account_id@) is None,
            forall|j: int|
                0 <= j < i ==> (#[trigger] plans@[j])@ == relay_plan(
                    *relayer,
                    ds[j],
                    ctx.current_account_id@,
                ),
        decreases n - i,
    {
        let ghost before = rest@;
        assert(delegates_view(before)[0] == ds[i as int]);
        let sd = rest.remove(0);
        assert forall|k: int| 0 <= k < rest@.len() implies (#[trigger] rest@[k])@ == ds[i + 1 + k] by {
            assert(rest@[k] == before[k + 1]);
            assert(delegates_view(before)[k + 1] == ds.skip(i as int)[k + 1]);
        }
        assert(delegates_view(rest@) =~= ds.skip(i + 1));
        if ctx.signer_account_id != sd.delegate_action.sender_id {
            assert(first_refused(ds, ctx.signer_account_id@, i as int));
            return fail(RelayerError::Unauthorized);
        }
        match relay_chain(relayer, sd, ctx) {
            Some(plan) => {
                plans.push(plan);
            },
            None => {
                assert(first_refused(ds, ctx.signer_account_id@, i as int));
                return fail(RelayerError::InvalidNonce);
            },
        }
        i = i + 1;
    }
    ok_with(plans, gas_alerts(ctx))
}

/// The chain for one meta-transaction of a chunked batch: the relay chain
/// when it can be relayed, otherwise a call of the relayer's own `panic`
/// method carrying the Borsh bytes of the reason.
pub open spec fn chunk_item_plan(
    relayer: Relayer,
    sd: SignedDelegateActionV,
    ctx: Context,
) -> Seq<ReceiptV> {
    match batch_item_refusal(sd, ctx.signer_account_id@) {
        Some(e) => seq![
            call_receipt(
                ctx.current_account_id@,
                CallArgsV::Raw { method_name: "panic"@, args: seq![error_index(e)] },
                0,
                relayer.cross_contract_gas,
            ),
        ],
        None => relay_plan(relayer, sd, ctx.current_account_id@),
    }
}

fn panic_chain(relayer: &Relayer, e: RelayerError, ctx: &Context) -> (r: PromisePlan)
    ensures
        r@ == seq![
            call_receipt(
                ctx.current_account_id@,
                CallArgsV::Raw { method_name: "panic"@, args: seq![error_index(e)] },
                0,
                relayer.cross_contract_gas,
            ),
        ],
{
    let mut plan = PromisePlan::new();
    plan.enqueue(
        call(
            ctx.current_account_id.clone(),
            CallArgs::Raw { method_name: "panic".to_string(), args: encode_error(e) },
            0,
            relayer.cross_contract_gas,
        ),
    );
    assert(plan@ =~= seq![
        call_receipt(
            ctx.current_account_id@,
            CallArgsV::Raw { method_name: "panic"@, args: seq![error_index(e)] },
            0,
            relayer.cross_contract_gas,
        ),
    ]);
    plan
}

/// The chains of a chunked batch, before the gas pool is charged: see
/// `relay_chunked_meta_transactions`.
fn plan_chunked(
    relayer: &Relayer,
    signed_delegates: Vec<SignedDelegateAction>,
    ctx: &Context,
) -> (r: Outcome<Vec<PromisePlan>>)
    requires
        ctx.prepaid_gas_tgas >= 250,
        relayer.chunk_size > 0,
    ensures
        ({
            let ds = delegates_view(signed_delegates@);
            if relayer.paused {
                r.result matches Err(e) && e == RelayerError::ContractPaused && r.events@
                    == Seq::<RelayerEvent>::empty()
            } else if ds.len() == 0 {
                r.result matches Err(e) && e == RelayerError::InvalidNonce && r.events@
                    == Seq::<RelayerEvent>::empty()
            } else if ctx.account_balance < relayer.min_balance {
                r.result matches Err(e) && e == RelayerError::InsufficientBalance && r.events@
                    == seq![RelayerEvent::LowBalance { balance: ctx.account_balance }]
            } else {
                &&& r.result matches Ok(plans) && plans@.len() == ds.len() && forall|i: int|
                    0 <= i < ds.len() ==> (#[trigger] plans@[i])@ == chunk_item_plan(
                        *relayer,
                        ds[i],
                        *ctx,
                    )
                &&& r.events@ == gas_alert(*ctx)
            }
        }),
{
    let ghost ds = delegates_view(signed_delegates@);
    if relayer.paused {
        return fail(RelayerError::ContractPaused);
    }
    if signed_delegates.len() == 0 {
        return fail(RelayerError::InvalidNonce);
    }
    if ctx.account_balance < relayer.min_balance {
        return fail_low_balance(ctx.account_balance);
    }
    let n = signed_delegates.len();
    let size = relayer.chunk_size;
    let mut rest = signed_delegates;
    let mut all_plans: Vec<PromisePlan> = Vec::new();
    let mut i: usize = 0;
    while i < n
        invariant
            i <= n,
            n == ds.len(),
            size == relayer.chunk_size,
            size > 0,
            delegates_view(rest@) == ds.skip(i as int),
            rest@.len() == n - i,
            all_plans@.len() == i,
            forall|j: int|
                0 <= j < i ==> (#[trigger] all_plans@[j])@ == chunk_item_plan(*relayer, ds[j], *ctx),
        decreases n - i,
    {
        let chunk_end = if n - i > size {
            i + size
        } else {
            n
        };
        while i < chunk_end
            invariant
                i <= chunk_end <= n,
                n == ds.len(),
                delegates_view(rest@) == ds.skip(i as int),
                rest@.len() == n - i,
            rest@.len() == n - i,
                all_plans@.len() == i,
                forall|j: int|
                    0 <= j < i ==> (#[trigger] all_plans@[j])@ == chunk_item_plan(
                        *relayer,
                        ds[j],
                        *ctx,
                    ),
            decreases chunk_end - i,
        {
            let ghost before = rest@;
            assert(delegates_view(before)[0] == ds[i as int]);
            let sd = rest.remove(0);
            assert forall|k: int| 0 <= k < rest@.len() implies (#[trigger] rest@[k])@ == ds[i + 1 + k] by {
                assert(rest@[k] == before[k + 1]);
                assert(delegates_view(before)[k + 1] == ds.skip(i as int)[k + 1]);
            }
            assert(delegates_view(rest@) =~= ds.skip(i + 1));
            let plan = if ctx.signer_account_id != sd.delegate_action.sender_id {
                panic_chain(relayer, RelayerError::Unauthorized, ctx)
            } else {
                match relay_chain(relayer, sd, ctx) {
                    Some(p) => p,
                    None => panic_chain(relayer, RelayerError::InvalidNonce, ctx),
                }
            };
            all_plans.push(plan);
            i = i + 1;
        }
    }
    ok_with(all_plans, gas_alerts(ctx))
}

/// Method names joined by commas, as an access key lists them.
pub open spec fn join_comma(ss: Seq<Seq<char>>) -> Seq<char>
    decreases ss.len(),
{
    if ss.len() == 0 {
        Seq::empty()
    } else if ss.len() == 1 {
        ss[0]
    } else {
        join_comma(ss.drop_last()) + seq![','] + ss.last()
    }
}

/// Joins method names with commas.
pub fn join_names(names: &Vec<String>) -> (r: String)
    ensures
        r@ == join_comma(strings_view(names@)),
{
    let ghost ss = strings_view(names@);
    let mut res = String::new();
    let mut i: usize = 0;
    while i < names.len()
        invariant
            i <= names@.len(),
            ss == strings_view(names@),
            res@ == join_comma(ss.take(i as int)),
        decreases names@.len() - i,
    {
        assert(ss.take(i + 1).drop_last() =~= ss.take(i as int));
        assert(ss.take(i + 1).last() == names@[i as int]@);
        if i == 0 {
            res = names[i].clone();
        } else {
            res.append(",");
            res.append(names[i].as_str());
        }
        proof {
            reveal_strlit(",");
        }
        i = i + 1;
        assert(res@ =~= join_comma(ss.take(i as int)));
    }
    assert(ss.take(names@.len() as int) =~= ss);
    res
}

/// The gas, in gas units, of each call in a token transfer's chain: 100 TGas.
pub const FT_CALL_GAS: u64 = 100_000_000_000_000;

/// The fee floor for bridge transfers: 0.015 NEAR (15 TGas of lock and sign
/// work, priced at 0.001 NEAR per TGas).
pub open spec fn bridge_fee_floor() -> u128 {
    15_000_000_000_000_000_000_000
}

/// The signing request for a bridge transfer's payload.
pub open spec fn bridge_sign_args(
    token: Seq<char>,
    amount: u128,
    destination_chain: Seq<char>,
    recipient: Seq<char>,
    sender: Seq<char>,
    nonce: u64,
    request_id: u64,
) -> Seq<u8> {
    enc_sign_request(
        enc_bridge_payload(token, amount, destination_chain, recipient, sender, nonce),
        Seq::empty(),
        0,
        request_id,
    )
}

/// Why a bridge transfer is refused, if it is.
pub open spec fn bridge_refusal(
    relayer: Relayer,
    token: Seq<char>,
    amount: u128,
    destination_chain: Seq<char>,
    recipient: Seq<char>,
    sender: Seq<char>,
    ctx: Context,
) -> Option<RelayerError> {
    let fee = relayer.base_fee;
    let nonce = relayer.nonce_of(destination_chain);
    if ctx.account_balance < relayer.min_balance + fee {
        Some(RelayerError::InsufficientBalance)
    } else if fee > 0 && fee < bridge_fee_floor() {
        Some(RelayerError::FeeTooLow)
    } else if relayer.mpc_of(destination_chain) is None {
        Some(RelayerError::InvalidNonce)
    } else if !bridge_payload_fits(token, destination_chain, recipient, sender) {
        Some(RelayerError::InvalidAccountId)
    } else if !fits_len(
        enc_bridge_payload(token, amount, destination_chain, recipient, sender, nonce).len(),
    ) {
        Some(RelayerError::InvalidAccountId)
    } else {
        None
    }
}

/// What carrying out one action yields: the promise chain, or why not.
pub open spec fn action_outcome(
    relayer: Relayer,
    a: ActionV,
    sender: Seq<char>,
    request_id: Option<u64>,
    ctx: Context,
) -> Result<Seq<ReceiptV>, RelayerError> {
    let gas = relayer.cross_contract_gas;
    match a {
        ActionV::FunctionCall { method_name, args, deposit, .. } => Ok(
            seq![
                ReceiptV {
                    receiver_id: sender,
                    actions: seq![
                        ReceiptActionV::FunctionCall {
                            call: CallArgsV::Raw { method_name, args },
                            deposit,
                            static_gas: gas,
                        },
                    ],
                },
            ],
        ),
        ActionV::Transfer { deposit } => Ok(
            seq![
                ReceiptV {
                    receiver_id: sender,
                    actions: seq![ReceiptActionV::Transfer { amount: deposit }],
                },
            ],
        ),
        ActionV::AddKey { public_key, allowance, receiver_id, method_names } => Ok(
            seq![
                ReceiptV {
                    receiver_id: sender,
                    actions: seq![
                        ReceiptActionV::AddAccessKey {
                            public_key,
                            allowance,
                            receiver_id,
                            function_names: join_comma(method_names),
                        },
                    ],
                },
            ],
        ),
        ActionV::ChainSignatureRequest { target_chain, derivation_path, payload } => {
            match relayer.mpc_of(target_chain) {
                None => Err(RelayerError::InvalidAccountId),
                Some(mpc) => match request_id {
                    None => Err(RelayerError::InvalidNonce),
                    Some(rid) => if !(fits_len(payload.len()) && string_fits(derivation_path)) {
                        Err(RelayerError::InvalidAccountId)
                    } else {
                        Ok(
                            seq![
                                call_receipt(
                                    mpc,
                                    CallArgsV::Raw {
                                        method_name: "sign"@,
                                        args: enc_sign_request(payload, derivation_path, 0, rid),
                                    },
                                    1,
                                    gas,
                                ),
                            ],
                        )
                    },
                },
            }
        },
        ActionV::FtTransfer { token, receiver_id, amount, memo } => {
            let ft = relayer.ft_wrapper_contract@;
            let me = ctx.current_account_id@;
            Ok(
                seq![
                    call_receipt(ft, CallArgsV::IsRegistered { token, account_id: sender }, 0, FT_CALL_GAS),
                    call_receipt(
                        me,
                        CallArgsV::HandleRegistration {
                            account_id: sender,
                            token,
                            is_sender: true,
                            is_registered: true,
                        },
                        0,
                        FT_CALL_GAS,
                    ),
                    call_receipt(
                        ft,
                        CallArgsV::IsRegistered { token, account_id: receiver_id },
                        0,
                        FT_CALL_GAS,
                    ),
                    call_receipt(
                        me,
                        CallArgsV::HandleRegistration {
                            account_id: receiver_id,
                            token,
                            is_sender: false,
                            is_registered: true,
                        },
                        0,
                        FT_CALL_GAS,
                    ),
                    call_receipt(
                        ft,
                        CallArgsV::FtTransfer { token, receiver_id, amount, memo },
                        0,
                        FT_CALL_GAS,
                    ),
                ],
            )
        },
        ActionV::BridgeTransfer { token, amount, destination_chain, recipient } => {
            match bridge_refusal(
                relayer,
                token,
                amount,
                destination_chain,
                recipient,
                sender,
                ctx,
            ) {
                Some(e) => Err(e),
                None => {
                    let locker = match relayer.omni_locker_contract {
                        Some(l) => l@,
                        None => ctx.current_account_id@,
                    };
                    let rid = match request_id {
                        Some(x) => x,
                        None => ctx.block_timestamp,
                    };
                    Ok(
                        seq![
                            call_receipt(
                                locker,
                                CallArgsV::Lock { token, amount, destination_chain, recipient },
                                0,
                                gas,
                            ),
                            call_receipt(
                                relayer.mpc_of(destination_chain).unwrap(),
                                CallArgsV::Raw {
                                    method_name: "sign"@,
                                    args: bridge_sign_args(
                                        token,
                                        amount,
                                        destination_chain,
                                        recipient,
                                        sender,
                                        relayer.nonce_of(destination_chain),
                                        rid,
                                    ),
                                },
                                0,
                                gas,
                            ),
                        ],
                    )
                },
            }
        },
    }
}

/// What a batch takes from the gas pool: the relay cost of each of its
/// meta-transactions.
pub open spec fn batch_cost(ds: Seq<SignedDelegateActionV>) -> int
    decreases ds.len(),
{
    if ds.len() == 0 {
        0
    } else {
        batch_cost(ds.drop_last()) + relay_cost(ds.last())
    }
}

proof fn lemma_batch_cost_prefix(ds: Seq<SignedDelegateActionV>, k: int)
    requires
        0 <= k <= ds.len(),
    ensures
        0 <= batch_cost(ds.take(k)) <= batch_cost(ds),
    decreases ds.len(),
{
    if k == ds.len() {
        assert(ds.take(k) =~= ds);
        if ds.len() > 0 {
            lemma_batch_cost_prefix(ds.drop_last(), k - 1);
            assert(ds.drop_last().take(k - 1) =~= ds.drop_last());
        }
    } else {
        lemma_batch_cost_prefix(ds.drop_last(), k);
        assert(ds.drop_last().take(k) =~= ds.take(k));
    }
}

/// The relay cost of a batch, or `None` when it exceeds what a `u128` holds.
fn batch_cost_of(ds: &Vec<SignedDelegateAction>) -> (r: Option<u128>)
    ensures
        r matches Some(t) ==> t == batch_cost(delegates_view(ds@)),
        r is None ==> batch_cost(delegates_view(ds@)) > u128::MAX,
{
    let ghost v = delegates_view(ds@);
    let mut total: u128 = 0;
    let mut i: usize = 0;
    assert(v.take(0) =~= Seq::<SignedDelegateActionV>::empty());
    while i < ds.len()
        invariant
            i <= ds@.len(),
            v == delegates_view(ds@),
            total == batch_cost(v.take(i as int)),
        decreases ds@.len() - i,
    {
        assert(v.take(i + 1).drop_last() =~= v.take(i as int));
        assert(v.take(i + 1).last() == ds@[i as int]@);
        let cost = relay_cost_of(&ds[i]);
        match total.checked_add(cost) {
            Some(t) => {
                total = t;
            },
            None => {
                proof {
                    lemma_batch_cost_prefix(v, i + 1);
                }
                return None;
            },
        }
        i = i + 1;
    }
    assert(v.take(ds@.len() as int) =~= v);
    Some(total)
}

/// Relays a batch of meta-transactions, unless the relayer is paused:
/// between one and `chunk_size` of them, each signed by the transaction's
/// signer, with the relayer's balance at its minimum. The first refused one
/// refuses the whole batch. Then the gas pool must hold, on top of its minimum, the
/// batch's cost, which it pays; each meta-transaction gets the chain of
/// [`relay_plan`], in order.
pub fn relay_meta_transactions(
    relayer: &mut Relayer,
    signed_delegates: Vec<SignedDelegateAction>,
    ctx: &Context,
) -> (r: Outcome<Vec<PromisePlan>>)
    requires
        ctx.prepaid_gas_tgas >= 250,
    ensures
        ({
            let ds = delegates_view(signed_delegates@);
            let before = *old(relayer);
            if before.paused {
                r.result matches Err(e) && e == RelayerError::ContractPaused && r.events@
                    == Seq::<RelayerEvent>::empty() && *final(relayer) == before
            } else if ds.len() == 0 || ds.len() > before.chunk_size {
                r.result matches Err(e) && e == RelayerError::InvalidNonce && r.events@
                    == Seq::<RelayerEvent>::empty() && *final(relayer) == before
            } else if ctx.account_balance < before.min_balance {
                r.result matches Err(e) && e == RelayerError::InsufficientBalance && r.events@
                    == seq![RelayerEvent::LowBalance { balance: ctx.account_balance }]
                    && *final(relayer) == before
            } else if exists|i: int| #[trigger] first_refused(ds, ctx.signer_account_id@, i) {
                &&& exists|i: int|
                    #[trigger] first_refused(ds, ctx.signer_account_id@, i) && r.result == Err::<
                        Vec<PromisePlan>,
                        RelayerError,
                    >(batch_item_refusal(ds[i], ctx.signer_account_id@).unwrap())
                &&& r.events@ == Seq::<RelayerEvent>::empty()
                &&& *final(relayer) == before
            } else if !funds_cover(before, *ctx, batch_cost(ds)) {
                r.result matches Err(e) && e == RelayerError::InsufficientGasPool && r.events@
                    == Seq::<RelayerEvent>::empty() && *final(relayer) == before
            } else {
                &&& r.result matches Ok(plans) && plans@.len() == ds.len() && forall|i: int|
                    0 <= i < ds.len() ==> (#[trigger] plans@[i])@ == relay_plan(
                        before,
                        ds[i],
                        ctx.current_account_id@,
                    )
                &&& r.events@ == gas_alert(*ctx)
                &&& *final(relayer) == (Relayer {
                    gas_pool: (before.gas_pool - batch_cost(ds)) as u128,
                    ..before
                })
            }
        }),
{
    let total = batch_cost_of(&signed_delegates);
    let out = plan_batch(relayer, signed_delegates, ctx);
    if out.result.is_err() {
        return out;
    }
    match total {
        Some(t) => {
            if relayer.gas_pool < relayer.min_gas_pool || relayer.gas_pool - relayer.min_gas_pool < t {
                return fail(RelayerError::InsufficientGasPool);
            }
            relayer.gas_pool = relayer.gas_pool - t;
            out
        },
        None => fail(RelayerError::InsufficientGasPool),
    }
}

/// Relays any number of meta-transactions, `chunk_size` at a time, unless
/// the relayer is paused, with its balance at its minimum and its gas pool
/// holding the cost of the whole batch on top of its minimum, which it pays (a
/// refused meta-transaction costs as much as a relayed one). A
/// meta-transaction that cannot be relayed does not stop the others: its
/// place holds a call that fails with the reason.
pub fn relay_chunked_meta_transactions(
    relayer: &mut Relayer,
    signed_delegates: Vec<SignedDelegateAction>,
    ctx: &Context,
) -> (r: Outcome<Vec<PromisePlan>>)
    requires
        ctx.prepaid_gas_tgas >= 250,
        old(relayer).chunk_size > 0,
    ensures
        ({
            let ds = delegates_view(signed_delegates@);
            let before = *old(relayer);
            if before.paused {
                r.result matches Err(e) && e == RelayerError::ContractPaused && r.events@
                    == Seq::<RelayerEvent>::empty() && *final(relayer) == before
            } else if ds.len() == 0 {
                r.result matches Err(e) && e == RelayerError::InvalidNonce && r.events@
                    == Seq::<RelayerEvent>::empty() && *final(relayer) == before
            } else if ctx.account_balance < before.min_balance {
                r.result matches Err(e) && e == RelayerError::InsufficientBalance && r.events@
                    == seq![RelayerEvent::LowBalance { balance: ctx.account_balance }]
                    && *final(relayer) == before
            } else if !funds_cover(before, *ctx, batch_cost(ds)) {
                r.result matches Err(e) && e == RelayerError::InsufficientGasPool && r.events@
                    == Seq::<RelayerEvent>::empty() && *final(relayer) == before
            } else {
                &&& r.result matches Ok(plans) && plans@.len() == ds.len() && forall|i: int|
                    0 <= i < ds.len() ==> (#[trigger] plans@[i])@ == chunk_item_plan(
                        before,
                        ds[i],
                        *ctx,
                    )
                &&& r.events@ == gas_alert(*ctx)
                &&& *final(relayer) == (Relayer {
                    gas_pool: (before.gas_pool - batch_cost(ds)) as u128,
                    ..before
                })
            }
        }),
{
    let total = batch_cost_of(&signed_delegates);
    if relayer.paused || signed_delegates.len() == 0 || ctx.account_balance < relayer.min_balance {
        return plan_chunked(relayer, signed_delegates, ctx);
    }
    match total {
        Some(t) => {
            if relayer.gas_pool < relayer.min_gas_pool || relayer.gas_pool - relayer.min_gas_pool < t {
                return fail(RelayerError::InsufficientGasPool);
            }
            let out = plan_chunked(relayer, signed_delegates, ctx);
            relayer.gas_pool = relayer.gas_pool - t;
            out
        },
        None => fail(RelayerError::InsufficientGasPool),
    }
}

/// The plan with a single receipt holding one action.
fn single(receiver: String, action: ReceiptAction) -> (r: PromisePlan)
    ensures
        r@ == seq![ReceiptV { receiver_id: receiver@, actions: seq![action@] }],
{
    let ghost av = action@;
    let mut actions: Vec<ReceiptAction> = Vec::new();
    actions.push(action);
    assert(actions@.map_values(|a: ReceiptAction| a@) =~= seq![av]);
    let mut plan = PromisePlan::new();
    plan.enqueue(receipt(receiver, actions));
    assert(plan@ =~= seq![ReceiptV { receiver_id: receiver@, actions: seq![av] }]);
    plan
}

fn ft_transfer_chain(
    relayer: &Relayer,
    sender_id: &String,
    token: &String,
    receiver_id: &String,
    amount: u128,
    memo: &Option<String>,
    ctx: &Context,
) -> (r: PromisePlan)
    ensures
        r@ == action_outcome(
            *relayer,
            ActionV::FtTransfer {
                token: token@,
                receiver_id: receiver_id@,
                amount,
                memo: opt_str_view(*memo),
            },
            sender_id@,
            None,
            *ctx,
        ).unwrap(),
{
    let ft = &relayer.ft_wrapper_contract;
    let me = &ctx.current_account_id;
    let mut plan = PromisePlan::new();
    plan.enqueue(
        call(
            ft.clone(),
            CallArgs::IsRegistered { token: token.clone(), account_id: sender_id.clone() },
            0,
            FT_CALL_GAS,
        ),
    );
    plan.enqueue(
        call(
            me.clone(),
            CallArgs::HandleRegistration {
                account_id: sender_id.clone(),
                token: token.clone(),
                is_sender: true,
                is_registered: true,
            },
            0,
            FT_CALL_GAS,
        ),
    );
    plan.enqueue(
        call(
            ft.clone(),
            CallArgs::IsRegistered { token: token.clone(), account_id: receiver_id.clone() },
            0,
            FT_CALL_GAS,
        ),
    );
    plan.enqueue(
        call(
            me.clone(),
            CallArgs::HandleRegistration {
                account_id: receiver_id.clone(),
                token: token.clone(),
                is_sender: false,
                is_registered: true,
            },
            0,
            FT_CALL_GAS,
        ),
    );
    let memo_copy = match memo {
        Some(m) => Some(m.clone()),
        None => None,
    };
    plan.enqueue(
        call(
            ft.clone(),
            CallArgs::FtTransfer {
                token: token.clone(),
                receiver_id: receiver_id.clone(),
                amount,
                memo: memo_copy,
            },
            0,
            FT_CALL_GAS,
        ),
    );
    let ghost expected = action_outcome(
        *relayer,
        ActionV::FtTransfer {
            token: token@,
            receiver_id: receiver_id@,
            amount,
            memo: opt_str_view(*memo),
        },
        sender_id@,
        None,
        *ctx,
    ).unwrap();
    assert(plan@ =~= expected);
    plan
}

/// The events of a bridge transfer that has been started.
pub open spec fn bridge_started_events(
    events: Seq<RelayerEvent>,
    token: Seq<char>,
    amount: u128,
    destination_chain: Seq<char>,
    recipient: Seq<char>,
    sender: Seq<char>,
    nonce: u64,
    fee: u128,
) -> bool {
    &&& events.len() >= 2
    &&& events[0] matches RelayerEvent::BridgeTransferInitiated {
        token: t,
        amount: a,
        destination_chain: d,
        recipient: rc,
        sender: s,
        nonce: n,
    } && t@ == token && a == amount && d@ == destination_chain && rc@ == recipient && s@ == sender
        && n == nonce
    &&& events[1] matches RelayerEvent::FeeCharged { action, fee: f, sender: s } && action@
        == "BridgeTransfer"@ && f == fee && s@ == sender
}

/// Starts a bridge transfer: lock the tokens, then have the chain's signing
/// contract sign the transfer; the transfer waits under the chain's current
/// nonce until it is settled.
fn bridge_transfer(
    relayer: &mut Relayer,
    sender_id: &String,
    token: &String,
    amount: u128,
    destination_chain: &String,
    recipient: &String,
    request_id: Option<u64>,
    ctx: &Context,
) -> (r: Outcome<PromisePlan>)
    requires
        old(relayer).min_balance + old(relayer).base_fee <= u128::MAX,
    ensures
        ({
            let refusal = bridge_refusal(
                *old(relayer),
                token@,
                amount,
                destination_chain@,
                recipient@,
                sender_id@,
                *ctx,
            );
            let nonce = old(relayer).nonce_of(destination_chain@);
            match refusal {
                Some(e) => {
                    &&& r.result matches Err(x) && x == e
                    &&& r.events@ == if e == RelayerError::InsufficientBalance {
                        seq![RelayerEvent::LowBalance { balance: ctx.account_balance }]
                    } else {
                        Seq::empty()
                    }
                    &&& *final(relayer) == *old(relayer)
                },
                None => {
                    &&& r.result matches Ok(p) && action_outcome(
                        *old(relayer),
                        ActionV::BridgeTransfer {
                            token: token@,
                            amount,
                            destination_chain: destination_chain@,
                            recipient: recipient@,
                        },
                        sender_id@,
                        request_id,
                        *ctx,
                    ) == Ok::<Seq<ReceiptV>, RelayerError>(p@)
                    &&& bridge_started_events(
                        r.events@,
                        token@,
                        amount,
                        destination_chain@,
                        recipient@,
                        sender_id@,
                        nonce,
                        old(relayer).base_fee,
                    )
                    &&& r.events@.len() == 2
                    &&& final(relayer).pending_transfers@ == old(relayer).pending_transfers@.insert(
                        destination_chain@,
                        PendingTransfer {
                            nonce,
                            sender: *sender_id,
                            token: *token,
                            amount,
                            recipient: *recipient,
                            fee: old(relayer).base_fee,
                        },
                    )
                    &&& *final(relayer) == (Relayer {
                        pending_transfers: final(relayer).pending_transfers,
                        ..*old(relayer)
                    })
                },
            }
        }),
{
    let fee = relayer.base_fee;
    let balance = ctx.account_balance;
    if balance < relayer.min_balance + fee {
        return fail_low_balance(balance);
    }
    let total_cost: u128 = 15_000_000_000_000;
    assert(total_cost / 1_000_000_000_000 == 15) by (nonlinear_arith)
        requires
            total_cost == 15_000_000_000_000,
    ;
    let floor: u128 = total_cost / 1_000_000_000_000 * 1_000_000_000_000_000_000_000;
    assert(floor == bridge_fee_floor());
    if fee > 0 && fee < floor {
        return fail(RelayerError::FeeTooLow);
    }
    let nonce = relayer.get_pending_nonce(destination_chain);
    let locker = relayer.get_omni_locker_contract(&ctx.current_account_id);
    let mpc = match relayer.chain_mpc_mapping.get(destination_chain) {
        Some(m) => m.clone(),
        None => {
            return fail(RelayerError::InvalidNonce);
        },
    };
    let payload = match encode_bridge_payload(
        token,
        amount,
        destination_chain,
        recipient,
        sender_id,
        nonce,
    ) {
        Some(p) => p,
        None => {
            return fail(RelayerError::InvalidAccountId);
        },
    };
    let rid = match request_id {
        Some(x) => x,
        None => ctx.block_timestamp,
    };
    let empty_path = String::new();
    assert(empty_path@ =~= Seq::<char>::empty());
    let sign_args = match encode_sign_request(payload.as_slice(), &empty_path, 0, rid) {
        Some(a) => a,
        None => {
            return fail(RelayerError::InvalidAccountId);
        },
    };
    let gas = relayer.cross_contract_gas;
    let mut plan = PromisePlan::new();
    plan.enqueue(
        call(
            locker,
            CallArgs::Lock {
                token: token.clone(),
                amount,
                destination_chain: destination_chain.clone(),
                recipient: recipient.clone(),
            },
            0,
            gas,
        ),
    );
    plan.enqueue(
        call(mpc, CallArgs::Raw { method_name: "sign".to_string(), args: sign_args }, 0, gas),
    );
    let ghost expected = action_outcome(
        *old(relayer),
        ActionV::BridgeTransfer {
            token: token@,
            amount,
            destination_chain: destination_chain@,
            recipient: recipient@,
        },
        sender_id@,
        request_id,
        *ctx,
    );
    assert(expected is Ok);
    assert(plan@ =~= expected.unwrap());
    assert(Ok::<Seq<ReceiptV>, RelayerError>(plan@) == expected);
    relayer.add_pending_transfer(
        destination_chain.clone(),
        nonce,
        sender_id.clone(),
        token.clone(),
        amount,
        recipient.clone(),
        fee,
    );
    let mut events: Vec<RelayerEvent> = Vec::new();
    events.push(
        RelayerEvent::BridgeTransferInitiated {
            token: token.clone(),
            amount,
            destination_chain: destination_chain.clone(),
            recipient: recipient.clone(),
            sender: sender_id.clone(),
            nonce,
        },
    );
    events.push(
        RelayerEvent::FeeCharged {
            action: "BridgeTransfer".to_string(),
            fee,
            sender: sender_id.clone(),
        },
    );
    ok_with(plan, events)
}

/// The error of a result, if it failed.
pub open spec fn error_of<T>(r: Result<T, RelayerError>) -> Option<RelayerError> {
    match r {
        Ok(_) => None,
        Err(e) => Some(e),
    }
}

/// What carrying out `action` does to the relayer and which events it emits,
/// given how it ended (`error`): only a bridge transfer records anything (the
/// pending transfer under the chain's current nonce) or emits anything.
pub open spec fn action_effects(
    before: Relayer,
    after: Relayer,
    events: Seq<RelayerEvent>,
    action: Action,
    sender: String,
    error: Option<RelayerError>,
    ctx: Context,
) -> bool {
    match action {
        Action::BridgeTransfer { token, amount, destination_chain, recipient } => {
            let nonce = before.nonce_of(destination_chain@);
            match error {
                Some(e) => {
                    &&& after == before
                    &&& events == if e == RelayerError::InsufficientBalance {
                        seq![RelayerEvent::LowBalance { balance: ctx.account_balance }]
                    } else {
                        Seq::empty()
                    }
                },
                None => {
                    &&& after.pending_transfers@ == before.pending_transfers@.insert(
                        destination_chain@,
                        PendingTransfer {
                            nonce,
                            sender,
                            token,
                            amount,
                            recipient,
                            fee: before.base_fee,
                        },
                    )
                    &&& after == (Relayer { pending_transfers: after.pending_transfers, ..before })
                    &&& bridge_started_events(
                        events,
                        token@,
                        amount,
                        destination_chain@,
                        recipient@,
                        sender@,
                        nonce,
                        before.base_fee,
                    )
                    &&& events.len() == 2
                },
            }
        },
        _ => after == before && events == Seq::<RelayerEvent>::empty(),
    }
}

/// Carries out one action for `sender_id`: the promise chain that performs
/// it, or why it cannot be done. Only a bridge transfer changes the relayer
/// (it records the transfer as pending) or emits events. The storage charge
/// and the low-gas alert that follow a successful action are
/// `finish_action`'s.
pub fn execute_action(
    relayer: &mut Relayer,
    action: &Action,
    sender_id: &String,
    _action_type: &str,
    request_id: Option<u64>,
    ctx: &Context,
) -> (r: Outcome<PromisePlan>)
    requires
        ctx.prepaid_gas_tgas >= 250,
        action matches Action::AddKey { allowance, .. } ==> allowance != Some(0u128),
        action is BridgeTransfer ==> old(relayer).min_balance + old(relayer).base_fee <= u128::MAX,
    ensures
        match r.result {
            Ok(p) => action_outcome(*old(relayer), action@, sender_id@, request_id, *ctx) == Ok::<
                Seq<ReceiptV>,
                RelayerError,
            >(p@),
            Err(e) => action_outcome(*old(relayer), action@, sender_id@, request_id, *ctx) == Err::<
                Seq<ReceiptV>,
                RelayerError,
            >(e),
        },
        action_effects(
            *old(relayer),
            *final(relayer),
            r.events@,
            *action,
            *sender_id,
            error_of(r.result),
            *ctx,
        ),
{
    let gas = relayer.cross_contract_gas;
    match action {
        Action::FunctionCall { method_name, args, gas: _, deposit } => {
            let plan = single(
                sender_id.clone(),
                ReceiptAction::FunctionCall {
                    call: CallArgs::Raw { method_name: method_name.clone(), args: copy_bytes(args) },
                    deposit: *deposit,
                    static_gas: gas,
                },
            );
            ok_with(plan, Vec::new())
        },
        Action::Transfer { deposit } => {
            let plan = single(sender_id.clone(), ReceiptAction::Transfer { amount: *deposit });
            ok_with(plan, Vec::new())
        },
        Action::AddKey { public_key, allowance, receiver_id, method_names } => {
            let plan = single(
                sender_id.clone(),
                ReceiptAction::AddAccessKey {
                    public_key: public_key.copy(),
                    allowance: *allowance,
                    receiver_id: receiver_id.clone(),
                    function_names: join_names(method_names),
                },
            );
            ok_with(plan, Vec::new())
        },
        Action::ChainSignatureRequest { target_chain, derivation_path, payload } => {
            let mpc = match relayer.chain_mpc_mapping.get(target_chain) {
                Some(m) => m.clone(),
                None => {
                    return fail(RelayerError::InvalidAccountId);
                },
            };
            let rid = match request_id {
                Some(x) => x,
                None => {
                    return fail(RelayerError::InvalidNonce);
                },
            };
            let args = match encode_sign_request(payload.as_slice(), derivation_path, 0, rid) {
                Some(a) => a,
                None => {
                    return fail(RelayerError::InvalidAccountId);
                },
            };
            let mut plan = PromisePlan::new();
            plan.enqueue(
                call(mpc, CallArgs::Raw { method_name: "sign".to_string(), args }, 1, gas),
            );
            let ghost expected = action_outcome(
                *old(relayer),
                action@,
                sender_id@,
                request_id,
                *ctx,
            );
            assert(expected is Ok);
            assert(plan@ =~= expected.unwrap());
            ok_with(plan, Vec::new())
        },
        Action::FtTransfer { token, receiver_id, amount, memo } => {
            let plan = ft_transfer_chain(relayer, sender_id, token, receiver_id, *amount, memo, ctx);
            ok_with(plan, Vec::new())
        },
        Action::BridgeTransfer { token, amount, destination_chain, recipient } => {
            bridge_transfer(
                relayer,
                sender_id,
                token,
                *amount,
                destination_chain,
                recipient,
                request_id,
                ctx,
            )
        },
    }
}

} // verus!
