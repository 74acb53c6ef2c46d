//! The Borsh byte layouts the relayer produces: what it hashes and checks
//! signatures against (the delegate action), and the argument blobs it hands
//! to other contracts.
//!
//! Borsh writes integers little-endian in their full width, a string or a byte
//! vector as its length (a `u32`) followed by its bytes, a vector as its length
//! followed by its items, an enum as its variant index (one byte) followed by
//! the variant's fields, an option as a 0 or 1 byte followed by the value, and
//! a struct or tuple as its fields in order. A length that does not fit a `u32`
//! cannot be written, and writing fails.
use vstd::prelude::*;
use vstd::utf8::*;
use crate::types::{
    Action, ActionV, DelegateAction, DelegateActionV, PublicKey, actions_view, opt_str_view,
    strings_view,
};
use crate::errors::RelayerError;

verus! {

/// The low `n` bytes of `x`, least significant first.
pub open spec fn le_bytes(x: nat, n: nat) -> Seq<u8>
    decreases n,
{
    if n == 0 {
        Seq::empty()
    } else {
        seq![(x % 256) as u8] + le_bytes(x / 256, (n - 1) as nat)
    }
}

pub open spec fn enc_u32(x: u32) -> Seq<u8> {
    le_bytes(x as nat, 4)
}

pub open spec fn enc_u64(x: u64) -> Seq<u8> {
    le_bytes(x as nat, 8)
}

pub open spec fn enc_u128(x: u128) -> Seq<u8> {
    le_bytes(x as nat, 16)
}

pub open spec fn enc_bool(b: bool) -> Seq<u8> {
    if b {
        seq![1u8]
    } else {
        seq![0u8]
    }
}

/// A length Borsh can write.
pub open spec fn fits_len(n: nat) -> bool {
    n <= u32::MAX
}

/// A byte vector: its length, then its bytes.
pub open spec fn enc_bytes(s: Seq<u8>) -> Seq<u8> {
    le_bytes(s.len(), 4) + s
}

/// A string: its UTF-8 bytes written as a byte vector.
pub open spec fn enc_string(s: Seq<char>) -> Seq<u8> {
    enc_bytes(encode_utf8(s))
}

pub open spec fn string_fits(s: Seq<char>) -> bool {
    fits_len(encode_utf8(s).len())
}

pub open spec fn enc_opt_u128(o: Option<u128>) -> Seq<u8> {
    match o {
        Some(x) => seq![1u8] + enc_u128(x),
        None => seq![0u8],
    }
}

pub open spec fn enc_opt_u32(o: Option<u32>) -> Seq<u8> {
    match o {
        Some(x) => seq![1u8] + enc_u32(x),
        None => seq![0u8],
    }
}

pub open spec fn enc_opt_string(o: Option<Seq<char>>) -> Seq<u8> {
    match o {
        Some(s) => seq![1u8] + enc_string(s),
        None => seq![0u8],
    }
}

pub open spec fn opt_string_fits(o: Option<Seq<char>>) -> bool {
    match o {
        Some(s) => string_fits(s),
        None => true,
    }
}

/// The items of a list of strings, one after the other.
pub open spec fn enc_string_items(ss: Seq<Seq<char>>) -> Seq<u8>
    decreases ss.len(),
{
    if ss.len() == 0 {
        Seq::empty()
    } else {
        enc_string_items(ss.drop_last()) + enc_string(ss.last())
    }
}

/// A vector of strings: its length, then each string.
pub open spec fn enc_strings(ss: Seq<Seq<char>>) -> Seq<u8> {
    le_bytes(ss.len(), 4) + enc_string_items(ss)
}

pub open spec fn strings_fit(ss: Seq<Seq<char>>) -> bool {
    &&& fits_len(ss.len())
    &&& forall|i: int| 0 <= i < ss.len() ==> #[trigger] string_fits(ss[i])
}

/// An action: its variant index, then its fields.
pub open spec fn enc_action(a: ActionV) -> Seq<u8> {
    match a {
        ActionV::ChainSignatureRequest { target_chain, derivation_path, payload } => seq![0u8]
            + enc_string(target_chain) + enc_string(derivation_path) + enc_bytes(payload),
        ActionV::FunctionCall { method_name, args, gas, deposit } => seq![1u8] + enc_string(
            method_name,
        ) + enc_bytes(args) + enc_u64(gas) + enc_u128(deposit),
        ActionV::Transfer { deposit } => seq![2u8] + enc_u128(deposit),
        ActionV::AddKey { public_key, allowance, receiver_id, method_names } => seq![3u8]
            + enc_bytes(public_key) + enc_opt_u128(allowance) + enc_string(receiver_id)
            + enc_strings(method_names),
        ActionV::FtTransfer { token, receiver_id, amount, memo } => seq![4u8] + enc_string(token)
            + enc_string(receiver_id) + enc_u128(amount) + enc_opt_string(memo),
        ActionV::BridgeTransfer { token, amount, destination_chain, recipient } => seq![5u8]
            + enc_string(token) + enc_u128(amount) + enc_string(destination_chain) + enc_string(
            recipient,
        ),
    }
}

/// Every length inside the action can be written.
pub open spec fn action_fits(a: ActionV) -> bool {
    match a {
        ActionV::ChainSignatureRequest { target_chain, derivation_path, payload } => string_fits(
            target_chain,
        ) && string_fits(derivation_path) && fits_len(payload.len()),
        ActionV::FunctionCall { method_name, args, .. } => string_fits(method_name) && fits_len(
            args.len(),
        ),
        ActionV::Transfer { .. } => true,
        ActionV::AddKey { public_key, receiver_id, method_names, .. } => fits_len(public_key.len())
            && string_fits(receiver_id) && strings_fit(method_names),
        ActionV::FtTransfer { token, receiver_id, memo, .. } => string_fits(token) && string_fits(
            receiver_id,
        ) && opt_string_fits(memo),
        ActionV::BridgeTransfer { token, destination_chain, recipient, .. } => string_fits(token)
            && string_fits(destination_chain) && string_fits(recipient),
    }
}

pub open spec fn enc_action_items(acts: Seq<ActionV>) -> Seq<u8>
    decreases acts.len(),
{
    if acts.len() == 0 {
        Seq::empty()
    } else {
        enc_action_items(acts.drop_last()) + enc_action(acts.last())
    }
}

pub open spec fn actions_fit(acts: Seq<ActionV>) -> bool {
    &&& fits_len(acts.len())
    &&& forall|i: int| 0 <= i < acts.len() ==> #[trigger] action_fits(acts[i])
}

/// A delegate action: sender, receiver, actions, nonce, expiry height.
pub open spec fn enc_delegate(d: DelegateActionV) -> Seq<u8> {
    enc_string(d.sender_id) + enc_string(d.receiver_id) + le_bytes(d.actions.len(), 4)
        + enc_action_items(d.actions) + enc_u64(d.nonce) + enc_u64(d.max_block_height)
}

pub open spec fn delegate_fits(d: DelegateActionV) -> bool {
    string_fits(d.sender_id) && string_fits(d.receiver_id) && actions_fit(d.actions)
}

/// The request the relayer sends to a signing (MPC) contract.
pub open spec fn enc_sign_request(
    payload: Seq<u8>,
    path: Seq<char>,
    key_version: u32,
    request_id: u64,
) -> Seq<u8> {
    enc_bytes(payload) + enc_string(path) + enc_u32(key_version) + enc_u64(request_id)
}

/// The payload signed for a bridge transfer.
pub open spec fn enc_bridge_payload(
    token: Seq<char>,
    amount: u128,
    destination_chain: Seq<char>,
    recipient: Seq<char>,
    sender: Seq<char>,
    nonce: u64,
) -> Seq<u8> {
    enc_string(token) + enc_u128(amount) + enc_string(destination_chain) + enc_string(recipient)
        + enc_string(sender) + enc_u64(nonce)
}

/// An (account id, public key) pair.
pub open spec fn enc_account_and_key(account: Seq<char>, key: Seq<u8>) -> Seq<u8> {
    enc_string(account) + enc_bytes(key)
}

/// The four bytes of a `u32`, least significant first.
pub proof fn lemma_le_bytes_4(x: nat)
    requires
        x <= u32::MAX,
    ensures
        le_bytes(x, 4) == seq![
            (x % 256) as u8,
            ((x / 256) % 256) as u8,
            ((x / 65536) % 256) as u8,
            ((x / 16777216) % 256) as u8,
        ],
        x == x % 256 + 256 * ((x / 256) % 256) + 65536 * ((x / 65536) % 256) + 16777216 * ((x
            / 16777216) % 256),
{
    let q1 = x / 256;
    let q2 = q1 / 256;
    let q3 = q2 / 256;
    assert(q2 == x / 65536) by {
        vstd::arithmetic::div_mod::lemma_div_denominator(x as int, 256, 256);
    }
    assert(q3 == x / 16777216) by {
        vstd::arithmetic::div_mod::lemma_div_denominator(x as int, 65536, 256);
    }
    assert(q3 < 256);
    reveal_with_fuel(le_bytes, 5);
    assert(le_bytes(q3 / 256, 0) =~= Seq::<u8>::empty());
    assert(le_bytes(x, 4) =~= seq![
        (x % 256) as u8,
        (q1 % 256) as u8,
        (q2 % 256) as u8,
        (q3 % 256) as u8,
    ]);
}

/// Four bytes read as a little-endian number are written back as the same
/// four bytes.
pub proof fn lemma_le_bytes_4_of_bytes(c0: u8, c1: u8, c2: u8, c3: u8)
    ensures
        le_bytes((c0 + 256 * c1 + 65536 * c2 + 16777216 * c3) as nat, 4) == seq![c0, c1, c2, c3],
{
    let m2: int = c2 + 256 * c3;
    let m1: int = c1 + 256 * m2;
    let x: int = c0 + 256 * m1;
    assert(x == c0 + 256 * c1 + 65536 * c2 + 16777216 * c3);
    vstd::arithmetic::div_mod::lemma_fundamental_div_mod_converse(x, 256, m1, c0 as int);
    vstd::arithmetic::div_mod::lemma_fundamental_div_mod_converse(m1, 256, m2, c1 as int);
    vstd::arithmetic::div_mod::lemma_fundamental_div_mod_converse(m2, 256, c3 as int, c2 as int);
    vstd::arithmetic::div_mod::lemma_fundamental_div_mod_converse(c3 as int, 256, 0, c3 as int);
    reveal_with_fuel(le_bytes, 5);
    assert(le_bytes(x as nat, 4) =~= seq![c0, c1, c2, c3]);
}

pub proof fn lemma_le_bytes_len(x: nat, n: nat)
    ensures
        le_bytes(x, n).len() == n,
    decreases n,
{
    if n > 0 {
        lemma_le_bytes_len(x / 256, (n - 1) as nat);
    }
}

/// Appends the low `n` bytes of `x`, least significant first.
fn put_le(out: &mut Vec<u8>, x: u128, n: usize)
    requires
        n <= 16,
    ensures
        final(out)@ == old(out)@ + le_bytes(x as nat, n as nat),
{
    let ghost start = out@;
    let mut v: u128 = x;
    let mut i: usize = 0;
    assert(start + le_bytes(x as nat, n as nat) =~= out@ + le_bytes(v as nat, (n - i) as nat));
    while i < n
        invariant
            i <= n,
            start + le_bytes(x as nat, n as nat) == out@ + le_bytes(v as nat, (n - i) as nat),
        decreases n - i,
    {
        let ghost before = out@;
        let ghost k = (n - i) as nat;
        let ghost old_v = v as nat;
        assert(le_bytes(old_v, k) == seq![(old_v % 256) as u8] + le_bytes(
            old_v / 256,
            (k - 1) as nat,
        ));
        out.push((v % 256) as u8);
        v = v / 256;
        i = i + 1;
        assert(before + le_bytes(old_v, k) =~= out@ + le_bytes(v as nat, (n - i) as nat));
    }
    assert(out@ + le_bytes(v as nat, 0) =~= out@);
}

pub fn put_u8(out: &mut Vec<u8>, x: u8)
    ensures
        final(out)@ == old(out)@ + seq![x],
{
    out.push(x);
}

pub fn put_u32(out: &mut Vec<u8>, x: u32)
    ensures
        final(out)@ == old(out)@ + enc_u32(x),
{
    put_le(out, x as u128, 4);
}

pub fn put_u64(out: &mut Vec<u8>, x: u64)
    ensures
        final(out)@ == old(out)@ + enc_u64(x),
{
    put_le(out, x as u128, 8);
}

pub fn put_u128(out: &mut Vec<u8>, x: u128)
    ensures
        final(out)@ == old(out)@ + enc_u128(x),
{
    put_le(out, x, 16);
}

/// Appends the bytes as they are, with no length.
pub fn put_raw(out: &mut Vec<u8>, b: &[u8])
    ensures
        final(out)@ == old(out)@ + b@,
{
    let ghost start = out@;
    let mut i: usize = 0;
    while i < b.len()
        invariant
            i <= b.len(),
            out@ == start + b@.take(i as int),
        decreases b.len() - i,
    {
        out.push(b[i]);
        i = i + 1;
        assert(out@ =~= start + b@.take(i as int));
    }
    assert(b@.take(b.len() as int) =~= b@);
}

/// Appends a byte vector (length, then bytes); false when its length does
/// not fit a `u32`.
pub fn put_bytes(out: &mut Vec<u8>, b: &[u8]) -> (ok: bool)
    ensures
        ok == fits_len(b@.len()),
        ok ==> final(out)@ == old(out)@ + enc_bytes(b@),
{
    if b.len() as u64 > 0xffff_ffffu64 {
        return false;
    }
    put_u32(out, b.len() as u32);
    put_raw(out, b);
    assert(final(out)@ =~= old(out)@ + enc_bytes(b@));
    true
}

/// Appends a string (length of its UTF-8 bytes, then the bytes).
pub fn put_string(out: &mut Vec<u8>, s: &String) -> (ok: bool)
    ensures
        ok == string_fits(s@),
        ok ==> final(out)@ == old(out)@ + enc_string(s@),
{
    let b = s.as_str().as_bytes();
    put_bytes(out, b)
}

pub fn put_opt_string(out: &mut Vec<u8>, o: &Option<String>) -> (ok: bool)
    ensures
        ok == opt_string_fits(opt_str_view(*o)),
        ok ==> final(out)@ == old(out)@ + enc_opt_string(opt_str_view(*o)),
{
    match o {
        Some(s) => {
            put_u8(out, 1);
            let ghost mid = out@;
            let ok = put_string(out, s);
            assert(ok ==> final(out)@ =~= old(out)@ + enc_opt_string(opt_str_view(*o)));
            ok
        },
        None => {
            put_u8(out, 0);
            true
        },
    }
}

pub fn put_opt_u128(out: &mut Vec<u8>, o: Option<u128>)
    ensures
        final(out)@ == old(out)@ + enc_opt_u128(o),
{
    match o {
        Some(x) => {
            put_u8(out, 1);
            put_u128(out, x);
            assert(final(out)@ =~= old(out)@ + enc_opt_u128(o));
        },
        None => {
            put_u8(out, 0);
        },
    }
}

pub fn put_strings(out: &mut Vec<u8>, v: &Vec<String>) -> (ok: bool)
    ensures
        ok == strings_fit(strings_view(v@)),
        ok ==> final(out)@ == old(out)@ + enc_strings(strings_view(v@)),
{
    let ghost sv = strings_view(v@);
    if v.len() as u64 > 0xffff_ffffu64 {
        return false;
    }
    put_u32(out, v.len() as u32);
    let ghost start = out@;
    let mut i: usize = 0;
    while i < v.len()
        invariant
            i <= v.len(),
            sv == strings_view(v@),
            forall|j: int| 0 <= j < i ==> #[trigger] string_fits(sv[j]),
            out@ == start + enc_string_items(sv.take(i as int)),
        decreases v.len() - i,
    {
        let ghost before = out@;
        let ok = put_string(out, &v[i]);
        assert(sv[i as int] == v@[i as int]@);
        if !ok {
            assert(!string_fits(sv[i as int]));
            return false;
        }
        assert(sv.take(i + 1).drop_last() =~= sv.take(i as int));
        assert(sv.take(i + 1).last() == v@[i as int]@);
        i = i + 1;
        assert(out@ =~= start + enc_string_items(sv.take(i as int)));
    }
    assert(sv.take(v.len() as int) =~= sv);
    assert(final(out)@ =~= old(out)@ + enc_strings(sv));
    true
}

/// Appends an action; false when some length inside it does not fit.
pub fn put_action(out: &mut Vec<u8>, a: &Action) -> (ok: bool)
    ensures
        ok == action_fits(a@),
        ok ==> final(out)@ == old(out)@ + enc_action(a@),
{
    match a {
        Action::ChainSignatureRequest { target_chain, derivation_path, payload } => {
            put_u8(out, 0);
            if !put_string(out, target_chain) {
                return false;
            }
            if !put_string(out, derivation_path) {
                return false;
            }
            if !put_bytes(out, payload.as_slice()) {
                return false;
            }
            assert(final(out)@ =~= old(out)@ + enc_action(a@));
            true
        },
        Action::FunctionCall { method_name, args, gas, deposit } => {
            put_u8(out, 1);
            if !put_string(out, method_name) {
                return false;
            }
            if !put_bytes(out, args.as_slice()) {
                return false;
            }
            put_u64(out, *gas);
            put_u128(out, *deposit);
            assert(final(out)@ =~= old(out)@ + enc_action(a@));
            true
        },
        Action::Transfer { deposit } => {
            put_u8(out, 2);
            put_u128(out, *deposit);
            assert(final(out)@ =~= old(out)@ + enc_action(a@));
            true
        },
        Action::AddKey { public_key, allowance, receiver_id, method_names } => {
            put_u8(out, 3);
            if !put_bytes(out, public_key.data.as_slice()) {
                return false;
            }
            put_opt_u128(out, *allowance);
            if !put_string(out, receiver_id) {
                return false;
            }
            if !put_strings(out, method_names) {
                return false;
            }
            assert(final(out)@ =~= old(out)@ + enc_action(a@));
            true
        },
        Action::FtTransfer { token, receiver_id, amount, memo } => {
            put_u8(out, 4);
            if !put_string(out, token) {
                return false;
            }
            if !put_string(out, receiver_id) {
                return false;
            }
            put_u128(out, *amount);
            if !put_opt_string(out, memo) {
                return false;
            }
            assert(final(out)@ =~= old(out)@ + enc_action(a@));
            true
        },
        Action::BridgeTransfer { token, amount, destination_chain, recipient } => {
            put_u8(out, 5);
            if !put_string(out, token) {
                return false;
            }
            put_u128(out, *amount);
            if !put_string(out, destination_chain) {
                return false;
            }
            if !put_string(out, recipient) {
                return false;
            }
            assert(final(out)@ =~= old(out)@ + enc_action(a@));
            true
        },
    }
}

/// The Borsh bytes of a delegate action, or `None` when some length inside
/// it does not fit a `u32`.
pub fn encode_delegate_action(d: &DelegateAction) -> (r: Option<Vec<u8>>)
    ensures
        r is Some <==> delegate_fits(d@),
        r matches Some(v) ==> v@ == enc_delegate(d@),
{
    let ghost acts = actions_view(d.actions@);
    let mut out: Vec<u8> = Vec::new();
    if !put_string(&mut out, &d.sender_id) {
        return None;
    }
    if !put_string(&mut out, &d.receiver_id) {
        return None;
    }
    if d.actions.len() as u64 > 0xffff_ffffu64 {
        return None;
    }
    put_u32(&mut out, d.actions.len() as u32);
    let ghost start = out@;
    let mut i: usize = 0;
    while i < d.actions.len()
        invariant
            i <= d.actions.len(),
            acts == actions_view(d.actions@),
            forall|j: int| 0 <= j < i ==> #[trigger] action_fits(acts[j]),
            out@ == start + enc_action_items(acts.take(i as int)),
        decreases d.actions.len() - i,
    {
        let ok = put_action(&mut out, &d.actions[i]);
        assert(acts[i as int] == d.actions@[i as int]@);
        if !ok {
            assert(!action_fits(acts[i as int]));
            return None;
        }
        assert(acts.take(i + 1).drop_last() =~= acts.take(i as int));
        assert(acts.take(i + 1).last() == d.actions@[i as int]@);
        i = i + 1;
        assert(out@ =~= start + enc_action_items(acts.take(i as int)));
    }
    assert(acts.take(d.actions.len() as int) =~= acts);
    put_u64(&mut out, d.nonce);
    put_u64(&mut out, d.max_block_height);
    assert(out@ =~= enc_delegate(d@));
    Some(out)
}

/// The variant index Borsh writes for an error.
pub open spec fn error_index(e: RelayerError) -> u8 {
    match e {
        RelayerError::Unauthorized => 0,
        RelayerError::InsufficientBalance => 1,
        RelayerError::InvalidNonce => 2,
        RelayerError::ExpiredTransaction => 3,
        RelayerError::ContractPaused => 4,
        RelayerError::InvalidAccountId => 5,
        RelayerError::AmountTooLow => 6,
        RelayerError::AmountTooHigh => 7,
        RelayerError::LastAdmin => 8,
        RelayerError::AlreadyExists => 9,
        RelayerError::CannotSelfRemove => 10,
        RelayerError::NotFound => 11,
        RelayerError::InvalidSignature => 12,
        RelayerError::InvalidRequestId => 13,
        RelayerError::InvalidChainId => 14,
        RelayerError::AccountTaken => 15,
        RelayerError::RateLimitHit => 16,
        RelayerError::KeyExpired => 17,
        RelayerError::InsufficientDeposit => 18,
        RelayerError::InsufficientSignatures => 19,
        RelayerError::FeeTooLow => 20,
        RelayerError::MissingInput => 21,
        RelayerError::InsufficientGasPool => 22,
    }
}

/// The Borsh bytes of an error: its variant index.
pub fn encode_error(e: RelayerError) -> (r: Vec<u8>)
    ensures
        r@ == seq![error_index(e)],
{
    let idx: u8 = match e {
        RelayerError::Unauthorized => 0,
        RelayerError::InsufficientBalance => 1,
        RelayerError::InvalidNonce => 2,
        RelayerError::ExpiredTransaction => 3,
        RelayerError::ContractPaused => 4,
        RelayerError::InvalidAccountId => 5,
        RelayerError::AmountTooLow => 6,
        RelayerError::AmountTooHigh => 7,
        RelayerError::LastAdmin => 8,
        RelayerError::AlreadyExists => 9,
        RelayerError::CannotSelfRemove => 10,
        RelayerError::NotFound => 11,
        RelayerError::InvalidSignature => 12,
        RelayerError::InvalidRequestId => 13,
        RelayerError::InvalidChainId => 14,
        RelayerError::AccountTaken => 15,
        RelayerError::RateLimitHit => 16,
        RelayerError::KeyExpired => 17,
        RelayerError::InsufficientDeposit => 18,
        RelayerError::InsufficientSignatures => 19,
        RelayerError::FeeTooLow => 20,
        RelayerError::MissingInput => 21,
        RelayerError::InsufficientGasPool => 22,
    };
    let mut out: Vec<u8> = Vec::new();
    out.push(idx);
    assert(out@ =~= seq![error_index(e)]);
    out
}

/// The Borsh bytes of a signing request, or `None` when the payload or the
/// path is too long to write.
pub fn encode_sign_request(payload: &[u8], path: &String, key_version: u32, request_id: u64) -> (r:
    Option<Vec<u8>>)
    ensures
        r is Some <==> fits_len(payload@.len()) && string_fits(path@),
        r matches Some(v) ==> v@ == enc_sign_request(payload@, path@, key_version, request_id),
{
    let mut out: Vec<u8> = Vec::new();
    if !put_bytes(&mut out, payload) {
        return None;
    }
    if !put_string(&mut out, path) {
        return None;
    }
    put_u32(&mut out, key_version);
    put_u64(&mut out, request_id);
    assert(out@ =~= enc_sign_request(payload@, path@, key_version, request_id));
    Some(out)
}

pub open spec fn bridge_payload_fits(
    token: Seq<char>,
    destination_chain: Seq<char>,
    recipient: Seq<char>,
    sender: Seq<char>,
) -> bool {
    string_fits(token) && string_fits(destination_chain) && string_fits(recipient) && string_fits(
        sender,
    )
}

/// The Borsh bytes of a bridge transfer payload, or `None` when a string is
/// too long to write.
pub fn encode_bridge_payload(
    token: &String,
    amount: u128,
    destination_chain: &String,
    recipient: &String,
    sender: &String,
    nonce: u64,
) -> (r: Option<Vec<u8>>)
    ensures
        r is Some <==> bridge_payload_fits(token@, destination_chain@, recipient@, sender@),
        r matches Some(v) ==> v@ == enc_bridge_payload(
            token@,
            amount,
            destination_chain@,
            recipient@,
            sender@,
            nonce,
        ),
{
    let mut out: Vec<u8> = Vec::new();
    if !put_string(&mut out, token) {
        return None;
    }
    put_u128(&mut out, amount);
    if !put_string(&mut out, destination_chain) {
        return None;
    }
    if !put_string(&mut out, recipient) {
        return None;
    }
    if !put_string(&mut out, sender) {
        return None;
    }
    put_u64(&mut out, nonce);
    assert(out@ =~= enc_bridge_payload(
        token@,
        amount,
        destination_chain@,
        recipient@,
        sender@,
        nonce,
    ));
    Some(out)
}

/// The Borsh bytes of an (account id, public key) pair, or `None` when one
/// is too long to write.
pub fn encode_account_and_key(account: &String, key: &PublicKey) -> (r: Option<Vec<u8>>)
    ensures
        r is Some <==> string_fits(account@) && fits_len(key@.len()),
        r matches Some(v) ==> v@ == enc_account_and_key(account@, key@),
{
    let mut out: Vec<u8> = Vec::new();
    if !put_string(&mut out, account) {
        return None;
    }
    if !put_bytes(&mut out, key.data.as_slice()) {
        return None;
    }
    assert(out@ =~= enc_account_and_key(account@, key@));
    Some(out)
}

} // verus!
