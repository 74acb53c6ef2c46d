//! Sponsoring new accounts: the registrar call that creates the account, the
//! key and funds it receives, and its registration with the auth contract.
use vstd::prelude::*;
use vstd::utf8::{decode_utf8, encode_utf8, encode_utf8_decode_utf8, valid_utf8};
use crate::borsh::{
    enc_account_and_key, enc_bool, enc_bytes, enc_opt_u32, enc_string, encode_account_and_key,
    fits_len, le_bytes, string_fits,
};
use crate::errors::RelayerError;
use crate::events::RelayerEvent;
use crate::plan::{
    CallArgs, CallArgsV, Outcome, PromisePlan, ReceiptAction, ReceiptActionV, ReceiptV, call,
    call_receipt, fail, fail_low_balance, ok_with, receipt,
};
use crate::relay::{
    check_funds, funds_refusal, gas_alert, refusal_events, relay_at, relay_plan, relay_refusal_at,
};
use crate::state::{Context, Relayer};
use crate::text::{account_id_rule, utf8_to_string, validate_account_id};
use crate::types::{
    Action, PublicKey, SignedDelegateAction, SignedDelegateActionV, public_key_bytes_valid, sub_bytes,
};

verus! {

/// `.near` in ASCII: the suffix of mainnet accounts.
pub open spec fn near_suffix() -> Seq<u8> {
    seq![46u8, 110u8, 101u8, 97u8, 114u8]
}

/// `.testnet` in ASCII: the suffix of testnet accounts.
pub open spec fn testnet_suffix() -> Seq<u8> {
    seq![46u8, 116u8, 101u8, 115u8, 116u8, 110u8, 101u8, 116u8]
}

/// Whether `s` ends with `suffix`.
pub open spec fn has_suffix(s: Seq<u8>, suffix: Seq<u8>) -> bool {
    &&& suffix.len() <= s.len()
    &&& s.subrange(s.len() - suffix.len(), s.len() as int) == suffix
}

/// The length of the first label of a dotted name: the bytes before the
/// first `.`, or all of them.
pub open spec fn first_label_len(b: Seq<u8>) -> nat
    decreases b.len(),
{
    if b.len() == 0 || b[0] == 46u8 {
        0
    } else {
        1 + first_label_len(b.drop_first())
    }
}

/// What the registrar charges to create an account, and what the new
/// account is funded with: on mainnet 0.5 NEAR, or 0.25 NEAR for names of 13
/// bytes or more, with a tenth of it as the creation deposit; on testnet
/// 0.1 NEAR and 0.00182 NEAR.
pub open spec fn sponsor_amounts(mainnet: bool, label_len: nat) -> (u128, u128) {
    if mainnet {
        let funding: u128 = if label_len >= 13 {
            250_000_000_000_000_000_000_000
        } else {
            500_000_000_000_000_000_000_000
        };
        (funding, (funding / 10) as u128)
    } else {
        (100_000_000_000_000_000_000_000, 1_820_000_000_000_000_000_000)
    }
}

/// Whether the relayer runs on mainnet: its own account ends with `.near`.
pub open spec fn on_mainnet(ctx: Context) -> bool {
    has_suffix(encode_utf8(ctx.current_account_id@), near_suffix())
}

/// Who may have the relayer sponsor accounts: the auth contract, which
/// vets the users, and the manager.
pub open spec fn may_sponsor(relayer: Relayer, caller: Seq<char>) -> bool {
    caller == relayer.auth_contract@ || caller == relayer.manager@
}

/// Why sponsoring `account` is refused, if it is.
pub open spec fn sponsor_refusal(
    relayer: Relayer,
    account: Seq<char>,
    key: Seq<u8>,
    ctx: Context,
) -> Option<RelayerError> {
    let bytes = encode_utf8(account);
    if relayer.paused {
        Some(RelayerError::ContractPaused)
    } else if !may_sponsor(relayer, ctx.predecessor_account_id@) {
        Some(RelayerError::Unauthorized)
    } else if funds_refusal(relayer, ctx, relayer.sponsor_amount as int) is Some {
        funds_refusal(relayer, ctx, relayer.sponsor_amount as int)
    } else if on_mainnet(ctx) && !(3 <= first_label_len(bytes) <= 16) {
        Some(RelayerError::InvalidAccountId)
    } else if !on_mainnet(ctx) && !has_suffix(bytes, testnet_suffix()) {
        Some(RelayerError::InvalidAccountId)
    } else if !(string_fits(account) && fits_len(key.len())) {
        Some(RelayerError::InvalidAccountId)
    } else {
        None
    }
}

/// The chain that sponsors `account`: the registrar creates it, it gets
/// `key` as a full-access key and its funding, and the auth contract
/// registers the key for 30 days.
pub open spec fn sponsor_plan(
    relayer: Relayer,
    account: Seq<char>,
    key: Seq<u8>,
    is_multi_sig: bool,
    multi_sig_threshold: Option<u32>,
    ctx: Context,
) -> Seq<ReceiptV> {
    let mainnet = on_mainnet(ctx);
    let registrar = if mainnet {
        "registrar.near"@
    } else {
        "testnet"@
    };
    let amounts = sponsor_amounts(mainnet, first_label_len(encode_utf8(account)));
    let gas = relayer.cross_contract_gas;
    seq![
        call_receipt(
            registrar,
            CallArgsV::Raw {
                method_name: "create_account"@,
                args: enc_account_and_key(account, key),
            },
            amounts.1,
            gas,
        ),
        ReceiptV {
            receiver_id: account,
            actions: seq![
                ReceiptActionV::AddFullAccessKey { public_key: key },
                ReceiptActionV::Transfer { amount: amounts.0 },
            ],
        },
        call_receipt(
            relayer.auth_contract@,
            CallArgsV::RegisterKey {
                account_id: account,
                public_key: key,
                expiration_days: Some(30u32),
                is_multi_sig,
                multi_sig_threshold,
            },
            0,
            gas,
        ),
    ]
}

/// Whether `b` ends with `suffix`.
fn ends_with_bytes(b: &[u8], suffix: &[u8]) -> (r: bool)
    ensures
        r == has_suffix(b@, suffix@),
{
    if suffix.len() > b.len() {
        return false;
    }
    let n: usize = b.len();
    let start: usize = n - suffix.len();
    let mut i: usize = 0;
    while i < suffix.len()
        invariant
            n == b@.len(),
            suffix@.len() <= n,
            start == n - suffix@.len(),
            i <= suffix@.len(),
            forall|j: int| 0 <= j < i ==> b@[start + j] == suffix@[j],
        decreases suffix@.len() - i,
    {
        if b[start + i] != suffix[i] {
            assert(b@.subrange(start as int, b@.len() as int)[i as int] != suffix@[i as int]);
            return false;
        }
        i = i + 1;
    }
    assert(b@.subrange(start as int, b@.len() as int) =~= suffix@);
    true
}

proof fn lemma_first_label_len(b: Seq<u8>, n: int)
    requires
        0 <= n <= b.len(),
        forall|j: int| 0 <= j < n ==> b[j] != 46u8,
        n == b.len() || b[n] == 46u8,
    ensures
        first_label_len(b) == n,
    decreases n,
{
    if n > 0 {
        lemma_first_label_len(b.drop_first(), n - 1);
    }
}

/// The length of the first label of a dotted name.
fn label_len(b: &[u8]) -> (r: usize)
    ensures
        r == first_label_len(b@),
{
    let mut i: usize = 0;
    while i < b.len() && b[i] != 46
        invariant
            i <= b@.len(),
            forall|j: int| 0 <= j < i ==> b@[j] != 46u8,
        decreases b@.len() - i,
    {
        i = i + 1;
    }
    proof {
        lemma_first_label_len(b@, i as int);
    }
    i
}

/// Creates and funds `new_account_id` through the registrar, gives it
/// `public_key` as a full-access key and registers that key with the auth
/// contract. On mainnet the name's first label must be 3 to 16 bytes; on
/// testnet the account must end with `.testnet`.
pub fn sponsor_account_with_registrar(
    relayer: &mut Relayer,
    new_account_id: String,
    public_key: PublicKey,
    is_multi_sig: bool,
    multi_sig_threshold: Option<u32>,
    ctx: &Context,
) -> (r: Outcome<PromisePlan>)
    ensures
        match sponsor_refusal(*old(relayer), new_account_id@, public_key@, *ctx) {
            Some(e) => {
                &&& r.result matches Err(x) && x == e
                &&& r.events@ == refusal_events(*old(relayer), *ctx, e)
                &&& *final(relayer) == *old(relayer)
            },
            None => {
                &&& r.result matches Ok(p) && p@ == sponsor_plan(
                    *old(relayer),
                    new_account_id@,
                    public_key@,
                    is_multi_sig,
                    multi_sig_threshold,
                    *ctx,
                )
                &&& r.events@ == seq![RelayerEvent::AccountSponsored { account_id: new_account_id }]
                &&& *final(relayer) == (Relayer {
                    gas_pool: (old(relayer).gas_pool - old(relayer).sponsor_amount) as u128,
                    ..*old(relayer)
                })
            },
        },
{
    if relayer.paused {
        return fail(RelayerError::ContractPaused);
    }
    if ctx.predecessor_account_id != relayer.auth_contract
        && ctx.predecessor_account_id != relayer.manager {
        return fail(RelayerError::Unauthorized);
    }
    if let Some(refused) = check_funds(relayer, ctx, relayer.sponsor_amount) {
        return refused;
    }
    let near: Vec<u8> = vec![46u8, 110u8, 101u8, 97u8, 114u8];
    let testnet: Vec<u8> = vec![46u8, 116u8, 101u8, 115u8, 116u8, 110u8, 101u8, 116u8];
    assert(near@ =~= near_suffix());
    assert(testnet@ =~= testnet_suffix());
    let is_mainnet = ends_with_bytes(ctx.current_account_id.as_str().as_bytes(), near.as_slice());
    let registrar = if is_mainnet {
        "registrar.near".to_string()
    } else {
        "testnet".to_string()
    };
    let id_bytes = new_account_id.as_str().as_bytes();
    let name_len = label_len(id_bytes);
    if is_mainnet {
        if name_len < 3 || name_len > 16 {
            return fail(RelayerError::InvalidAccountId);
        }
    } else if !ends_with_bytes(id_bytes, testnet.as_slice()) {
        return fail(RelayerError::InvalidAccountId);
    }
    let (funding, creation_deposit): (u128, u128) = if is_mainnet {
        let base: u128 = if name_len >= 13 {
            250_000_000_000_000_000_000_000
        } else {
            500_000_000_000_000_000_000_000
        };
        (base, base / 10)
    } else {
        (100_000_000_000_000_000_000_000, 1_820_000_000_000_000_000_000)
    };
    let args = match encode_account_and_key(&new_account_id, &public_key) {
        Some(a) => a,
        None => {
            return fail(RelayerError::InvalidAccountId);
        },
    };
    let gas = relayer.cross_contract_gas;
    let mut plan = PromisePlan::new();
    plan.enqueue(
        call(
            registrar,
            CallArgs::Raw { method_name: "create_account".to_string(), args },
            creation_deposit,
            gas,
        ),
    );
    let ghost key = public_key@;
    let mut actions: Vec<ReceiptAction> = Vec::new();
    actions.push(ReceiptAction::AddFullAccessKey { public_key: public_key.copy() });
    actions.push(ReceiptAction::Transfer { amount: funding });
    assert(actions@.map_values(|a: ReceiptAction| a@) =~= seq![
        ReceiptActionV::AddFullAccessKey { public_key: key },
        ReceiptActionV::Transfer { amount: funding },
    ]);
    plan.enqueue(receipt(new_account_id.clone(), actions));
    plan.enqueue(
        call(
            relayer.auth_contract.clone(),
            CallArgs::RegisterKey {
                account_id: new_account_id.clone(),
                public_key,
                expiration_days: Some(30),
                is_multi_sig,
                multi_sig_threshold,
            },
            0,
            gas,
        ),
    );
    proof {
        reveal_strlit("registrar.near");
        reveal_strlit("testnet");
        reveal_strlit("create_account");
    }
    assert(plan@ =~= sponsor_plan(
        *old(relayer),
        new_account_id@,
        key,
        is_multi_sig,
        multi_sig_threshold,
        *ctx,
    ));
    let mut events: Vec<RelayerEvent> = Vec::new();
    events.push(RelayerEvent::AccountSponsored { account_id: new_account_id });
    relayer.gas_pool = relayer.gas_pool - relayer.sponsor_amount;
    ok_with(plan, events)
}

/// The arguments of `sponsor_account`, as the caller sends them in Borsh.
#[derive(Debug)]
pub struct SponsorArgs {
    pub new_account_id: String,
    pub public_key: PublicKey,
    pub is_multi_sig: bool,
    pub multi_sig_threshold: Option<u32>,
}

pub struct SponsorArgsV {
    pub new_account_id: Seq<char>,
    pub public_key: Seq<u8>,
    pub is_multi_sig: bool,
    pub multi_sig_threshold: Option<u32>,
}

impl View for SponsorArgs {
    type V = SponsorArgsV;

    open spec fn view(&self) -> SponsorArgsV {
        SponsorArgsV {
            new_account_id: self.new_account_id@,
            public_key: self.public_key@,
            is_multi_sig: self.is_multi_sig,
            multi_sig_threshold: self.multi_sig_threshold,
        }
    }
}

/// The Borsh bytes of `sponsor_account`'s arguments: the account id, the
/// key, the multi-signature flag and the threshold.
pub open spec fn enc_sponsor_args(a: SponsorArgsV) -> Seq<u8> {
    enc_string(a.new_account_id) + enc_bytes(a.public_key) + enc_bool(a.is_multi_sig)
        + enc_opt_u32(a.multi_sig_threshold)
}

/// The little-endian `u32` at `at`.
pub open spec fn read_u32_le(b: Seq<u8>, at: int) -> nat {
    (b[at] + 256 * b[at + 1] + 65536 * b[at + 2] + 16777216 * b[at + 3]) as nat
}

/// What Borsh reads from `sponsor_account`'s argument bytes: a valid account
/// id (UTF-8 text following the account id rule), a valid public key, a
/// flag byte (0 or 1), an optional threshold (tag 0, or tag 1 and a `u32`),
/// and nothing after them.
pub open spec fn parse_sponsor_args(b: Seq<u8>) -> Option<SponsorArgsV> {
    if b.len() < 4 {
        None
    } else {
        let p1 = 4 + read_u32_le(b, 0);
        if b.len() < p1 + 4 {
            None
        } else {
            let name = b.subrange(4, p1 as int);
            let p2 = p1 + 4 + read_u32_le(b, p1 as int);
            if !valid_utf8(name) || !account_id_rule(decode_utf8(name)) || b.len() < p2 + 2 {
                None
            } else {
                let key = b.subrange((p1 + 4) as int, p2 as int);
                let flag = b[p2 as int];
                let tag = b[(p2 + 1) as int];
                let threshold = if tag == 0 && b.len() == p2 + 2 {
                    Some(None)
                } else if tag == 1 && b.len() == p2 + 6 {
                    Some(Some(read_u32_le(b, (p2 + 2) as int) as u32))
                } else {
                    None
                };
                if !public_key_bytes_valid(key) || flag > 1 || threshold is None {
                    None
                } else {
                    Some(
                        SponsorArgsV {
                            new_account_id: decode_utf8(name),
                            public_key: key,
                            is_multi_sig: flag == 1,
                            multi_sig_threshold: threshold.unwrap(),
                        },
                    )
                }
            }
        }
    }
}

/// The little-endian `u32` at `at`.
fn read_u32(b: &Vec<u8>, at: usize) -> (r: u32)
    requires
        at + 4 <= b@.len(),
    ensures
        r == read_u32_le(b@, at as int),
{
    let n: usize = b.len();
    assert(at + 4 <= n);
    let b0 = b[at] as u32;
    let b1 = b[at + 1] as u32;
    let b2 = b[at + 2] as u32;
    let b3 = b[at + 3] as u32;
    b0 + 256 * b1 + 65536 * b2 + 16777216 * b3
}

/// Reads `sponsor_account`'s arguments from their Borsh bytes.
pub fn decode_sponsor_args(args: &Vec<u8>) -> (r: Option<SponsorArgs>)
    ensures
        match parse_sponsor_args(args@) {
            None => r is None,
            Some(v) => r matches Some(a) && a@ == v,
        },
{
    let len = args.len();
    if len < 4 {
        return None;
    }
    let n = read_u32(args, 0) as usize;
    if len - 4 < n {
        return None;
    }
    let p1 = 4 + n;
    if len - p1 < 4 {
        return None;
    }
    let k = read_u32(args, p1) as usize;
    let key_start = p1 + 4;
    if len - key_start < k {
        return None;
    }
    let p2 = key_start + k;
    let name = sub_bytes(args, 4, p1);
    let account = match utf8_to_string(name.as_slice()) {
        Some(s) => s,
        None => {
            return None;
        },
    };
    proof {
        encode_utf8_decode_utf8(account@);
    }
    if !validate_account_id(account.as_str()) {
        return None;
    }
    if len - p2 < 2 {
        return None;
    }
    let flag = args[p2];
    let tag = args[p2 + 1];
    let threshold = if tag == 0 && len == p2 + 2 {
        None
    } else if tag == 1 && len - p2 == 6 {
        Some(read_u32(args, p2 + 2))
    } else {
        return None;
    };
    let key = match PublicKey::from_bytes(sub_bytes(args, key_start, p2)) {
        Some(key) => key,
        None => {
            return None;
        },
    };
    if flag > 1 {
        return None;
    }
    Some(
        SponsorArgs {
            new_account_id: account,
            public_key: key,
            is_multi_sig: flag == 1,
            multi_sig_threshold: threshold,
        },
    )
}

/// `sponsor_account`: reads the arguments (bytes that do not decode are
/// refused with `InvalidNonce`) and sponsors the account they name.
pub fn sponsor_account(relayer: &mut Relayer, args: Vec<u8>, ctx: &Context) -> (r: Outcome<
    PromisePlan,
>)
    ensures
        match parse_sponsor_args(args@) {
            None => r.result == Err::<PromisePlan, RelayerError>(RelayerError::InvalidNonce)
                && r.events@ == Seq::<RelayerEvent>::empty() && *final(relayer) == *old(relayer),
            Some(a) => match sponsor_refusal(*old(relayer), a.new_account_id, a.public_key, *ctx) {
                Some(e) => {
                    &&& r.result matches Err(x) && x == e
                    &&& r.events@ == refusal_events(*old(relayer), *ctx, e)
                    &&& *final(relayer) == *old(relayer)
                },
                None => {
                    &&& r.result matches Ok(p) && p@ == sponsor_plan(
                        *old(relayer),
                        a.new_account_id,
                        a.public_key,
                        a.is_multi_sig,
                        a.multi_sig_threshold,
                        *ctx,
                    )
                    &&& r.events@.len() == 1
                    &&& r.events@[0] matches RelayerEvent::AccountSponsored { account_id }
                        && account_id@ == a.new_account_id
                    &&& *final(relayer) == (Relayer {
                        gas_pool: (old(relayer).gas_pool - old(relayer).sponsor_amount) as u128,
                        ..*old(relayer)
                    })
                },
            },
        },
{
    match decode_sponsor_args(&args) {
        None => fail(RelayerError::InvalidNonce),
        Some(a) => sponsor_account_with_registrar(
            relayer,
            a.new_account_id,
            a.public_key,
            a.is_multi_sig,
            a.multi_sig_threshold,
            ctx,
        ),
    }
}

/// Whether a signed delegate action asks for a sponsored key: exactly one
/// action, adding a key.
pub open spec fn asks_for_key(sd: SignedDelegateActionV) -> bool {
    sd.delegate_action.actions.len() == 1 && sd.delegate_action.actions[0] is AddKey
}

/// Why sponsoring through a signed delegate action is refused, if it is.
pub open spec fn signed_sponsor_refusal(
    relayer: Relayer,
    sd: SignedDelegateActionV,
    ctx: Context,
) -> Option<RelayerError> {
    if relayer.paused {
        Some(RelayerError::ContractPaused)
    } else if !asks_for_key(sd) {
        Some(RelayerError::InvalidNonce)
    } else {
        relay_refusal_at(relayer, sd, ctx, relayer.sponsor_amount as int)
    }
}

/// Sponsors through a signed delegate action: one that adds a key is relayed
/// like any meta-transaction, and costs the gas pool the sponsor amount.
pub fn sponsor_account_signed(
    relayer: &mut Relayer,
    signed_delegate: SignedDelegateAction,
    ctx: &Context,
) -> (r: Outcome<PromisePlan>)
    requires
        ctx.prepaid_gas_tgas >= 250,
    ensures
        match signed_sponsor_refusal(*old(relayer), signed_delegate@, *ctx) {
            Some(e) => {
                &&& r.result matches Err(x) && x == e
                &&& r.events@ == refusal_events(*old(relayer), *ctx, e)
                &&& *final(relayer) == *old(relayer)
            },
            None => {
                &&& r.result matches Ok(p) && p@ == relay_plan(
                    *old(relayer),
                    signed_delegate@,
                    ctx.current_account_id@,
                )
                &&& r.events@ == gas_alert(*ctx)
                &&& *final(relayer) == (Relayer {
                    gas_pool: (old(relayer).gas_pool - old(relayer).sponsor_amount) as u128,
                    ..*old(relayer)
                })
            },
        },
{
    if relayer.paused {
        return fail(RelayerError::ContractPaused);
    }
    let actions = &signed_delegate.delegate_action.actions;
    let adds_key = actions.len() == 1 && match &actions[0] {
        Action::AddKey { .. } => true,
        _ => false,
    };
    if !adds_key {
        return fail(RelayerError::InvalidNonce);
    }
    let cost = relayer.sponsor_amount;
    relay_at(relayer, signed_delegate, ctx, cost)
}

} // verus!
