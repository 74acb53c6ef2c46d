//! Properties that span several operations of the relayer.
use vstd::prelude::*;
use vstd::utf8::{decode_utf8, encode_utf8, encode_utf8_decode_utf8, encode_utf8_valid_utf8};
use crate::borsh::{
    enc_bool, enc_bytes, enc_opt_u32, enc_string, le_bytes, lemma_le_bytes_4,
    lemma_le_bytes_4_of_bytes,
};
use crate::sponsor::{SponsorArgsV, enc_sponsor_args, parse_sponsor_args, read_u32_le};
use crate::balance::transfer_plan;
use crate::contract::{refund_plan, settle_effects, transfer_waiting};
use crate::errors::RelayerError;
use crate::relay::{action_effects, relay_cost, relay_refusal};
use crate::sponsor::sponsor_refusal;
use crate::types::SignedDelegateActionV;
use crate::state::{Context, Relayer};
use crate::text::account_id_rule;
use crate::types::Action;
use crate::types::public_key_bytes_valid;
use crate::events::RelayerEvent;
use crate::migration::{
    StateLayout, StoredRelayerV, enc_stored, found_state, lemma_stored_round_trip, parse_stored,
    stored_valid, upgraded,
};
use crate::state::latest_version;
use crate::decode::{
    lemma_action_at, lemma_bridge_payload_round_trip, lemma_delegate_round_trip,
    lemma_sign_request_round_trip, read_action, read_bridge_payload, read_delegate,
    read_sign_request,
};
use crate::borsh::{action_fits, delegate_fits, enc_action, enc_delegate};
use crate::crypto::sha256_digest;
use crate::text::base64_standard;
use crate::plan::{CallArgsV, ReceiptActionV, ReceiptV, call_receipt};
use crate::relay::{FT_CALL_GAS, action_outcome, nonce_signer, relay_plan};
use crate::types::{ActionV, DelegateActionV};
use crate::migration::nonces_prefix;
use crate::decode::lemma_account_and_key_round_trip;
use crate::migration::{rd_bytes, rd_string};
use crate::borsh::{enc_account_and_key, fits_len, string_fits};
use crate::sponsor::{on_mainnet, sponsor_plan};
use crate::relay::{funds_cover, join_comma};
use crate::state::RELAY_GAS_COST;
use crate::relay::{batch_cost, signature_check};
use crate::contract::{auth_callback, auth_check};
use crate::crypto::ed25519_accepts;
use crate::state::{DEFAULT_BASE_FEE, DEFAULT_MAX_BALANCE, DEFAULT_MIN_BALANCE};
use vstd::utf8::{is_ascii_chars, is_ascii_chars_encode_utf8};

verus! {

/// Four bytes written by `le_bytes` read back as the number they came from.
proof fn lemma_read_le_bytes_4(x: nat, b: Seq<u8>, at: int)
    requires
        x <= u32::MAX,
        0 <= at,
        at + 4 <= b.len(),
        b.subrange(at, at + 4) == le_bytes(x, 4),
    ensures
        read_u32_le(b, at) == x,
{
    lemma_le_bytes_4(x);
    assert(b[at] == b.subrange(at, at + 4)[0]);
    assert(b[at + 1] == b.subrange(at, at + 4)[1]);
    assert(b[at + 2] == b.subrange(at, at + 4)[2]);
    assert(b[at + 3] == b.subrange(at, at + 4)[3]);
}

/// Reading the Borsh bytes of valid `sponsor_account` arguments (an account
/// id that follows the account id rule and a valid public key) gives the
/// same arguments back.
pub proof fn sponsor_args_round_trip(a: SponsorArgsV)
    requires
        account_id_rule(a.new_account_id),
        public_key_bytes_valid(a.public_key),
    ensures
        parse_sponsor_args(enc_sponsor_args(a)) == Some(a),
{
    let name = encode_utf8(a.new_account_id);
    let key = a.public_key;
    let l = name.len();
    let k = key.len();
    let tail = enc_bool(a.is_multi_sig) + enc_opt_u32(a.multi_sig_threshold);
    let b = enc_sponsor_args(a);
    lemma_le_bytes_4(l);
    lemma_le_bytes_4(k);
    assert(b =~= le_bytes(l, 4) + name + le_bytes(k, 4) + key + tail);
    let p1: int = 4 + l as int;
    let p2: int = p1 + 4 + k;
    assert(b.subrange(0, 4) =~= le_bytes(l, 4));
    lemma_read_le_bytes_4(l, b, 0);
    assert(b.subrange(4, p1) =~= name);
    assert(b.subrange(p1, p1 + 4) =~= le_bytes(k, 4));
    lemma_read_le_bytes_4(k, b, p1);
    assert(b.subrange(p1 + 4, p2) =~= key);
    encode_utf8_valid_utf8(a.new_account_id);
    encode_utf8_decode_utf8(a.new_account_id);
    assert(b[p2] == tail[0]);
    assert(b[p2 + 1] == tail[1]);
    match a.multi_sig_threshold {
        None => {
            assert(b.len() == p2 + 2);
        },
        Some(t) => {
            lemma_le_bytes_4(t as nat);
            assert(b.len() == p2 + 6);
            assert(b.subrange(p2 + 2, p2 + 6) =~= le_bytes(t as nat, 4));
            lemma_read_le_bytes_4(t as nat, b, p2 + 2);
        },
    }
}

/// Bytes that read as `sponsor_account` arguments are exactly the Borsh
/// bytes of the arguments they give: nothing is ignored or written two ways.
pub proof fn sponsor_args_canonical(b: Seq<u8>)
    requires
        parse_sponsor_args(b) is Some,
    ensures
        enc_sponsor_args(parse_sponsor_args(b).unwrap()) == b,
{
    let a = parse_sponsor_args(b).unwrap();
    let l = read_u32_le(b, 0);
    let p1: int = 4 + l as int;
    let name = b.subrange(4, p1);
    let k = read_u32_le(b, p1);
    let p2: int = p1 + 4 + k;
    vstd::utf8::decode_utf8_encode_utf8(name);
    assert(encode_utf8(a.new_account_id) == name);
    lemma_le_bytes_4_of_bytes(b[0], b[1], b[2], b[3]);
    assert(b.subrange(0, 4) =~= le_bytes(l, 4));
    lemma_le_bytes_4_of_bytes(b[p1], b[p1 + 1], b[p1 + 2], b[p1 + 3]);
    assert(b.subrange(p1, p1 + 4) =~= le_bytes(k, 4));
    let head = enc_string(a.new_account_id) + enc_bytes(a.public_key);
    assert(head =~= b.subrange(0, p2));
    match a.multi_sig_threshold {
        None => {
            assert(enc_bool(a.is_multi_sig) + enc_opt_u32(a.multi_sig_threshold) =~= b.subrange(
                p2,
                b.len() as int,
            ));
        },
        Some(t) => {
            lemma_le_bytes_4_of_bytes(b[p2 + 2], b[p2 + 3], b[p2 + 4], b[p2 + 5]);
            assert(enc_bool(a.is_multi_sig) + enc_opt_u32(a.multi_sig_threshold) =~= b.subrange(
                p2,
                b.len() as int,
            ));
        },
    }
    assert(enc_sponsor_args(a) =~= b);
}

/// A bridge transfer waits under its chain's nonce until it settles. When it
/// succeeds the chain's nonce moves one past it; when it fails the nonce stays
/// where it was and exactly the fee charged at the start is refunded to the
/// sender. Either way nothing waits on the chain afterwards, and nothing else
/// of the relayer changed.
pub proof fn bridge_transfer_lifecycle(
    start: Relayer,
    started: Relayer,
    settled: Relayer,
    events: Seq<RelayerEvent>,
    token: String,
    amount: u128,
    chain: String,
    recipient: String,
    sender: String,
    ctx: Context,
    succeeded: bool,
)
    requires
        action_effects(
            start,
            started,
            events,
            Action::BridgeTransfer { token, amount, destination_chain: chain, recipient },
            sender,
            None,
            ctx,
        ),
        settle_effects(started, settled, chain@, succeeded),
        succeeded ==> start.nonce_of(chain@) < u64::MAX,
    ensures
        settled.nonce_of(chain@) == if succeeded {
            start.nonce_of(chain@) + 1
        } else {
            start.nonce_of(chain@) as int
        },
        !settled.pending_transfers@.contains_key(chain@),
        !succeeded ==> refund_plan(started, chain@, sender@) == if start.base_fee > 0 {
            transfer_plan(sender@, start.base_fee)
        } else {
            Seq::empty()
        },
        settled == (Relayer {
            pending_transfers: settled.pending_transfers,
            transfer_nonces: settled.transfer_nonces,
            ..start
        }),
        settled.pending_transfers@ == start.pending_transfers@.remove(chain@),
{
    assert(started.nonce_of(chain@) == start.nonce_of(chain@));
    assert(transfer_waiting(started, chain@));
    assert(settled.pending_transfers@ =~= start.pending_transfers@.remove(chain@));
}

/// While the relayer is paused it relays no meta-transaction and sponsors no
/// account: both are refused with `ContractPaused`, whatever else holds.
pub proof fn paused_relayer_halts(
    relayer: Relayer,
    signed_delegate: SignedDelegateActionV,
    account: Seq<char>,
    key: Seq<u8>,
    ctx: Context,
)
    requires
        relayer.paused,
    ensures
        relay_refusal(relayer, signed_delegate, ctx) == Some(RelayerError::ContractPaused),
        sponsor_refusal(relayer, account, key, ctx) == Some(RelayerError::ContractPaused),
{
}

/// Writing a stored state and reading the bytes back in its layout gives
/// the same state.
pub proof fn stored_state_round_trip(s: StoredRelayerV, layout: StateLayout)
    requires
        stored_valid(s, layout),
    ensures
        parse_stored(enc_stored(s), layout) == Some(s),
{
    lemma_stored_round_trip(s, layout);
}

/// A state at the latest version, written and migrated again, is found as
/// it was: migrating it answers with the same state, however often it is
/// done.
pub proof fn remigration_keeps_state(s: StoredRelayerV)
    requires
        stored_valid(s, StateLayout::Current),
        s.version == latest_version(),
    ensures
        found_state(enc_stored(s)) == Some(s),
{
    lemma_stored_round_trip(s, StateLayout::Current);
}

/// What a migration makes of a state of any layout is at the latest version,
/// can be written in the current layout, and is found unchanged when it is
/// read back: a second migration keeps it.
pub proof fn migration_reaches_latest(s: StoredRelayerV, layout: StateLayout)
    requires
        stored_valid(s, layout),
    ensures
        upgraded(s).version == latest_version(),
        stored_valid(upgraded(s), StateLayout::Current),
        found_state(enc_stored(upgraded(s))) == Some(upgraded(s)),
{
    reveal_strlit("1.1");
    assert(is_ascii_chars(latest_version()));
    is_ascii_chars_encode_utf8(latest_version());
    lemma_stored_round_trip(upgraded(s), StateLayout::Current);
}

/// Spending never eats into the gas pool's reserve: whenever a relay or a
/// sponsoring goes ahead, the pool still holds its minimum after paying for
/// it.
pub proof fn spending_keeps_gas_pool_reserve(
    relayer: Relayer,
    signed_delegate: SignedDelegateActionV,
    account: Seq<char>,
    key: Seq<u8>,
    ctx: Context,
)
    ensures
        relay_refusal(relayer, signed_delegate, ctx) is None ==> relayer.gas_pool - relay_cost(
            signed_delegate,
        ) >= relayer.min_gas_pool,
        sponsor_refusal(relayer, account, key, ctx) is None ==> relayer.gas_pool
            - relayer.sponsor_amount >= relayer.min_gas_pool,
{
}

/// The bytes an action is written as are its Borsh encoding: read back as
/// the variant index and then the variant's fields in declaration order
/// (for a function call: method name, arguments, gas as a `u64`, deposit as
/// a `u128`), they give the same action and nothing after it.
pub proof fn action_bytes_read_back(a: ActionV)
    requires
        action_fits(a),
    ensures
        read_action(enc_action(a), 0) == Some((a, enc_action(a).len() as int)),
{
    assert(enc_action(a).subrange(0, enc_action(a).len() as int) =~= enc_action(a));
    lemma_action_at(enc_action(a), 0, a);
}

/// The bytes a delegate action is hashed and its signature checked against
/// are its Borsh encoding: read back field by field in declaration order
/// (sender, receiver, the actions, nonce, last valid block height), they
/// give the same delegate action.
pub proof fn delegate_bytes_read_back(d: DelegateActionV)
    requires
        delegate_fits(d),
    ensures
        read_delegate(enc_delegate(d)) == Some(d),
{
    lemma_delegate_round_trip(d);
}

/// A relayed meta-transaction's chain asks the signer for the nonce of the
/// sender under the hash of the delegate action's bytes, asks the auth
/// contract whether the sender's key (with its signatures) is authorized,
/// then hands the answer back to the relayer for that sender.
pub proof fn relay_chain_asks_about_the_sender(
    relayer: Relayer,
    sd: SignedDelegateActionV,
    current_account: Seq<char>,
)
    ensures
        relay_plan(relayer, sd, current_account).len() == 3,
        relay_plan(relayer, sd, current_account)[0] == call_receipt(
            nonce_signer(relayer),
            CallArgsV::GetNonce {
                account_id: sd.delegate_action.sender_id,
                tx_hash: base64_standard(sha256_digest(enc_delegate(sd.delegate_action))),
            },
            0,
            relayer.cross_contract_gas,
        ),
        relay_plan(relayer, sd, current_account)[1] == call_receipt(
            relayer.auth_contract@,
            CallArgsV::IsAuthorized {
                account_id: sd.delegate_action.sender_id,
                public_key: sd.public_key,
                signatures: sd.multi_signatures,
            },
            0,
            relayer.cross_contract_gas,
        ),
        relay_plan(relayer, sd, current_account)[2] == call_receipt(
            current_account,
            CallArgsV::HandleAuthResult {
                sender_id: sd.delegate_action.sender_id,
                signed_delegate: sd,
                is_authorized: true,
            },
            0,
            relayer.cross_contract_gas,
        ),
{
}

/// A relayed function call runs on the sender's account with the action's
/// method, arguments and deposit; a relayed transfer sends the action's
/// deposit to the sender's account.
pub proof fn relayed_calls_run_as_written(
    relayer: Relayer,
    a: ActionV,
    sender: Seq<char>,
    request_id: Option<u64>,
    ctx: Context,
)
    ensures
        a matches ActionV::FunctionCall { method_name, args, deposit, .. } ==> action_outcome(
            relayer,
            a,
            sender,
            request_id,
            ctx,
        ) == Ok::<Seq<ReceiptV>, RelayerError>(
            seq![
                call_receipt(
                    sender,
                    CallArgsV::Raw { method_name, args },
                    deposit,
                    relayer.cross_contract_gas,
                ),
            ],
        ),
        a matches ActionV::Transfer { deposit } ==> action_outcome(
            relayer,
            a,
            sender,
            request_id,
            ctx,
        ) == Ok::<Seq<ReceiptV>, RelayerError>(
            seq![
                ReceiptV {
                    receiver_id: sender,
                    actions: seq![ReceiptActionV::Transfer { amount: deposit }],
                },
            ],
        ),
{
}

/// A token transfer checks that the sender and then the receiver named in
/// the action are registered with the token, and ends by transferring the
/// action's amount of the action's token to that receiver, with its memo.
pub proof fn token_transfer_pays_the_named_receiver(
    relayer: Relayer,
    token: Seq<char>,
    receiver_id: Seq<char>,
    amount: u128,
    memo: Option<Seq<char>>,
    sender: Seq<char>,
    request_id: Option<u64>,
    ctx: Context,
)
    ensures
        ({
            let a = ActionV::FtTransfer { token, receiver_id, amount, memo };
            let ft = relayer.ft_wrapper_contract@;
            &&& action_outcome(relayer, a, sender, request_id, ctx) matches Ok(p)
            &&& p.len() == 5
            &&& p[0] == call_receipt(
                ft,
                CallArgsV::IsRegistered { token, account_id: sender },
                0,
                FT_CALL_GAS,
            )
            &&& p[2] == call_receipt(
                ft,
                CallArgsV::IsRegistered { token, account_id: receiver_id },
                0,
                FT_CALL_GAS,
            )
            &&& p[4] == call_receipt(
                ft,
                CallArgsV::FtTransfer { token, receiver_id, amount, memo },
                0,
                FT_CALL_GAS,
            )
        }),
{
}

/// A bridge transfer that goes ahead locks the action's tokens for its
/// destination chain and recipient, and asks the chain's signer to sign a
/// payload that, read field by field in the payload's declaration order,
/// holds the action's token, amount, destination chain and recipient, the
/// relaying sender, and the chain's next nonce.
#[verifier::rlimit(60)]
pub proof fn bridge_signs_the_transfer_it_locks(
    relayer: Relayer,
    token: Seq<char>,
    amount: u128,
    destination_chain: Seq<char>,
    recipient: Seq<char>,
    sender: Seq<char>,
    request_id: Option<u64>,
    ctx: Context,
)
    ensures
        ({
            let a = ActionV::BridgeTransfer { token, amount, destination_chain, recipient };
            action_outcome(relayer, a, sender, request_id, ctx) matches Ok(p) ==> {
                &&& p.len() == 2
                &&& p[0].actions.len() == 1
                &&& p[0].actions[0] matches ReceiptActionV::FunctionCall { call, .. }
                &&& call == CallArgsV::Lock { token, amount, destination_chain, recipient }
                &&& p[1].receiver_id == relayer.mpc_of(destination_chain).unwrap()
                &&& p[1].actions.len() == 1
                &&& p[1].actions[0] matches ReceiptActionV::FunctionCall { call: sign, .. }
                &&& sign matches CallArgsV::Raw { method_name, args }
                &&& method_name == "sign"@
                &&& read_sign_request(args) matches Some((payload, _path, _version, _id))
                &&& read_bridge_payload(payload) == Some(
                    (
                        token,
                        amount as nat,
                        destination_chain,
                        recipient,
                        sender,
                        relayer.nonce_of(destination_chain) as nat,
                    ),
                )
            }
        }),
{
    let a = ActionV::BridgeTransfer { token, amount, destination_chain, recipient };
    if action_outcome(relayer, a, sender, request_id, ctx) is Ok {
        let nonce = relayer.nonce_of(destination_chain);
        let payload = crate::borsh::enc_bridge_payload(
            token,
            amount,
            destination_chain,
            recipient,
            sender,
            nonce,
        );
        let rid = match request_id {
            Some(x) => x,
            None => ctx.block_timestamp,
        };
        lemma_bridge_payload_round_trip(token, amount, destination_chain, recipient, sender, nonce);
        assert(crate::borsh::string_fits(Seq::<char>::empty())) by {
            assert(vstd::utf8::encode_utf8(Seq::<char>::empty()) =~= Seq::<u8>::empty());
        }
        lemma_sign_request_round_trip(payload, Seq::empty(), 0, rid);
        assert(crate::relay::bridge_sign_args(
            token,
            amount,
            destination_chain,
            recipient,
            sender,
            nonce,
            rid,
        ) == crate::borsh::enc_sign_request(payload, Seq::empty(), 0, rid));
    }
}

/// Upgrading a stored state changes nothing the manager configured: every
/// account, prefix, amount, gas and the chunk size stay; the version
/// becomes the latest; limits and fee the state had stay (the defaults
/// come in only where it had none); a nonces prefix it had stays.
pub proof fn upgrade_keeps_configuration(s: StoredRelayerV)
    ensures
        upgraded(s).version == latest_version(),
        upgraded(s).manager == s.manager,
        upgraded(s).offload_recipient == s.offload_recipient,
        upgraded(s).auth_contract == s.auth_contract,
        upgraded(s).ft_wrapper_contract == s.ft_wrapper_contract,
        upgraded(s).omni_locker_prefix == s.omni_locker_prefix,
        upgraded(s).chain_mpc_prefix == s.chain_mpc_prefix,
        upgraded(s).sponsor_amount == s.sponsor_amount,
        upgraded(s).sponsor_gas == s.sponsor_gas,
        upgraded(s).cross_contract_gas == s.cross_contract_gas,
        upgraded(s).migration_gas == s.migration_gas,
        upgraded(s).chunk_size == s.chunk_size,
        s.balances is Some ==> upgraded(s).balances == s.balances,
        s.balances is None ==> upgraded(s).balances == Some(
            (DEFAULT_MIN_BALANCE as nat, DEFAULT_MAX_BALANCE as nat, DEFAULT_BASE_FEE as nat),
        ),
        s.nonces_prefix is Some ==> upgraded(s).nonces_prefix == s.nonces_prefix,
        s.nonces_prefix is None ==> upgraded(s).nonces_prefix == Some(nonces_prefix()),
{
}

/// A chain-signature request is sent, with 1 yoctoNEAR, to the signing
/// contract registered for its chain, as a `sign` call whose arguments read
/// back as the action's payload and derivation path, key version 0 and the
/// request id; with no signer for the chain it is refused as an invalid
/// account, and without a request id as an invalid nonce.
pub proof fn chain_signature_request_is_signed_as_asked(
    relayer: Relayer,
    target_chain: Seq<char>,
    derivation_path: Seq<char>,
    payload: Seq<u8>,
    sender: Seq<char>,
    request_id: Option<u64>,
    ctx: Context,
)
    ensures
        ({
            let a = ActionV::ChainSignatureRequest { target_chain, derivation_path, payload };
            let out = action_outcome(relayer, a, sender, request_id, ctx);
            &&& relayer.mpc_of(target_chain) is None ==> out == Err::<Seq<ReceiptV>, RelayerError>(
                RelayerError::InvalidAccountId,
            )
            &&& relayer.mpc_of(target_chain) is Some && request_id is None ==> out == Err::<
                Seq<ReceiptV>,
                RelayerError,
            >(RelayerError::InvalidNonce)
            &&& out matches Ok(p) ==> {
                &&& p.len() == 1
                &&& p[0].receiver_id == relayer.mpc_of(target_chain).unwrap()
                &&& p[0].actions.len() == 1
                &&& p[0].actions[0] matches ReceiptActionV::FunctionCall { call, deposit, .. }
                &&& deposit == 1
                &&& call matches CallArgsV::Raw { method_name, args }
                &&& method_name == "sign"@
                &&& read_sign_request(args) == Some(
                    (payload, derivation_path, 0nat, request_id.unwrap() as nat),
                )
            }
        }),
{
    let a = ActionV::ChainSignatureRequest { target_chain, derivation_path, payload };
    if action_outcome(relayer, a, sender, request_id, ctx) is Ok {
        lemma_sign_request_round_trip(payload, derivation_path, 0, request_id.unwrap());
    }
}

/// Adding a key adds, on the sender's account, an access key with the
/// action's public key, allowance and receiver, for the action's method
/// names joined by commas.
pub proof fn add_key_adds_the_named_key(
    relayer: Relayer,
    public_key: Seq<u8>,
    allowance: Option<u128>,
    receiver_id: Seq<char>,
    method_names: Seq<Seq<char>>,
    sender: Seq<char>,
    request_id: Option<u64>,
    ctx: Context,
)
    ensures
        action_outcome(
            relayer,
            ActionV::AddKey { public_key, allowance, receiver_id, method_names },
            sender,
            request_id,
            ctx,
        ) == Ok::<Seq<ReceiptV>, RelayerError>(
            seq![
                ReceiptV {
                    receiver_id: sender,
                    actions: seq![
                        ReceiptActionV::AddAccessKey {
                            public_key,
                            allowance,
                            receiver_id,
                            function_names: join_comma(method_names),
                        },
                    ],
                },
            ],
        ),
{
}

/// A meta-transaction is relayed exactly when the relayer is not paused,
/// the transaction holds at most one action, the transaction's signer is
/// its sender, the balance is at its minimum, the gas pool holds the relay
/// cost on top of its minimum, and the delegate action can be written.
pub proof fn relay_goes_ahead_exactly_when_allowed(
    relayer: Relayer,
    sd: SignedDelegateActionV,
    ctx: Context,
)
    ensures
        relay_refusal(relayer, sd, ctx) is None <==> {
            &&& !relayer.paused
            &&& sd.delegate_action.actions.len() <= 1
            &&& ctx.signer_account_id@ == sd.delegate_action.sender_id
            &&& ctx.account_balance >= relayer.min_balance
            &&& relayer.gas_pool >= relayer.min_gas_pool + relay_cost(sd)
            &&& delegate_fits(sd.delegate_action)
        },
        relay_cost(sd) == if sd.fee_action is Some {
            2 * RELAY_GAS_COST
        } else {
            RELAY_GAS_COST as int
        },
        !relayer.paused && sd.delegate_action.actions.len() <= 1 && ctx.signer_account_id@
            != sd.delegate_action.sender_id ==> relay_refusal(relayer, sd, ctx) == Some(
            RelayerError::Unauthorized,
        ),
        !relayer.paused && sd.delegate_action.actions.len() > 1 ==> relay_refusal(relayer, sd, ctx)
            == Some(RelayerError::InvalidNonce),
{
}

/// Sponsoring goes ahead only when the relayer is not paused, the caller is
/// the auth contract or the manager, and the funds cover the sponsor
/// amount; a caller who is neither, on a running relayer, is refused as
/// unauthorized.
pub proof fn sponsoring_needs_an_allowed_caller_and_funds(
    relayer: Relayer,
    account: Seq<char>,
    key: Seq<u8>,
    ctx: Context,
)
    ensures
        sponsor_refusal(relayer, account, key, ctx) is None ==> {
            &&& !relayer.paused
            &&& (ctx.predecessor_account_id@ == relayer.auth_contract@
                || ctx.predecessor_account_id@ == relayer.manager@)
            &&& funds_cover(relayer, ctx, relayer.sponsor_amount as int)
            &&& string_fits(account)
            &&& fits_len(key.len())
        },
        !relayer.paused && ctx.predecessor_account_id@ != relayer.auth_contract@
            && ctx.predecessor_account_id@ != relayer.manager@ ==> sponsor_refusal(
            relayer,
            account,
            key,
            ctx,
        ) == Some(RelayerError::Unauthorized),
{
}

/// Sponsoring creates the named account through the registrar of the
/// network (`registrar.near` on mainnet, `testnet` otherwise) with
/// arguments that read back as the account id and the key, gives the new
/// account the key as a full-access key, and registers that key for that
/// account with the auth contract for 30 days with the asked multi-signature
/// settings.
pub proof fn sponsoring_creates_the_named_account(
    relayer: Relayer,
    account: Seq<char>,
    key: Seq<u8>,
    is_multi_sig: bool,
    multi_sig_threshold: Option<u32>,
    ctx: Context,
)
    requires
        string_fits(account),
        fits_len(key.len()),
    ensures
        ({
            let p = sponsor_plan(relayer, account, key, is_multi_sig, multi_sig_threshold, ctx);
            &&& p.len() == 3
            &&& p[0].receiver_id == if on_mainnet(ctx) {
                "registrar.near"@
            } else {
                "testnet"@
            }
            &&& p[0].actions.len() == 1
            &&& p[0].actions[0] matches ReceiptActionV::FunctionCall { call, .. }
            &&& call matches CallArgsV::Raw { method_name, args }
            &&& method_name == "create_account"@
            &&& rd_string(args, 0) matches Some((id, at))
            &&& id == account
            &&& rd_bytes(args, at) == Some((key, args.len() as int))
            &&& p[1].receiver_id == account
            &&& p[1].actions.len() == 2
            &&& p[1].actions[0] == ReceiptActionV::AddFullAccessKey { public_key: key }
            &&& p[1].actions[1] is Transfer
            &&& p[2] == call_receipt(
                relayer.auth_contract@,
                CallArgsV::RegisterKey {
                    account_id: account,
                    public_key: key,
                    expiration_days: Some(30u32),
                    is_multi_sig,
                    multi_sig_threshold,
                },
                0,
                relayer.cross_contract_gas,
            )
        }),
{
    lemma_account_and_key_round_trip(account, key);
}

/// A signed delegate action passes the signature check exactly when the
/// hash it came with is the SHA-256 of the delegate action's Borsh bytes and
/// its 64-byte signature verifies, under its ed25519 key, over those same
/// bytes.
pub proof fn signature_check_is_over_the_borsh_bytes(sd: SignedDelegateActionV, tx_hash: Seq<u8>)
    requires
        delegate_fits(sd.delegate_action),
    ensures
        signature_check(sd, tx_hash) is Ok <==> {
            &&& tx_hash == sha256_digest(enc_delegate(sd.delegate_action))
            &&& sd.signature.len() == 64
            &&& sd.public_key.len() == 33
            &&& sd.public_key[0] == 0
            &&& ed25519_accepts(
                sd.public_key.subrange(1, 33),
                enc_delegate(sd.delegate_action),
                sd.signature,
            )
        },
        tx_hash != sha256_digest(enc_delegate(sd.delegate_action)) ==> signature_check(sd, tx_hash)
            == Err::<(), RelayerError>(RelayerError::InvalidSignature),
{
}

/// The auth contract's answer decides: a refusal runs nothing and answers
/// `Unauthorized`; an approval runs the action only once the signature
/// check over the delegate action's bytes passes.
pub proof fn auth_answer_decides(sd: SignedDelegateActionV, is_authorized: bool)
    ensures
        !is_authorized ==> auth_check(sd, is_authorized) == Err::<(), RelayerError>(
            RelayerError::Unauthorized,
        ),
        auth_check(sd, is_authorized) is Ok <==> is_authorized && delegate_fits(sd.delegate_action)
            && signature_check(sd, sha256_digest(enc_delegate(sd.delegate_action))) is Ok,
{
}

/// The callback after a relayed action reports back to the relayer's own
/// account: for a signing request the chain and request id, for a bridge
/// transfer the sender and the transfer's fields, for anything else the
/// sender and the action's kind.
pub proof fn callbacks_report_the_sender(
    relayer: Relayer,
    a: ActionV,
    sender: Seq<char>,
    request_id: u64,
    current_account: Seq<char>,
)
    ensures
        ({
            let c = auth_callback(relayer, a, sender, request_id, current_account);
            &&& c.receiver_id == current_account
            &&& c.actions.len() == 1
            &&& c.actions[0] matches ReceiptActionV::FunctionCall { call, deposit, .. }
            &&& deposit == 0
            &&& match a {
                ActionV::ChainSignatureRequest { target_chain, .. } => call
                    matches CallArgsV::HandleMpcSignature { chain, request_id: id, .. } && chain
                    == target_chain && id == request_id,
                ActionV::BridgeTransfer { token, amount, destination_chain, recipient } => call
                    == CallArgsV::HandleBridgeTransferResult {
                    sender_id: sender,
                    token,
                    amount,
                    destination_chain,
                    recipient,
                    signature: Seq::empty(),
                },
                _ => call matches CallArgsV::HandleBridgeResult { sender_id, .. } && sender_id
                    == sender,
            }
        }),
{
}

/// A batch costs the sum of its meta-transactions' relay costs: nothing for
/// an empty batch, and one more meta-transaction adds its own cost.
pub proof fn batch_cost_adds_up(ds: Seq<SignedDelegateActionV>, sd: SignedDelegateActionV)
    ensures
        batch_cost(Seq::<SignedDelegateActionV>::empty()) == 0,
        batch_cost(ds.push(sd)) == batch_cost(ds) + relay_cost(sd),
{
    assert(ds.push(sd).drop_last() =~= ds);
}

} // verus!
