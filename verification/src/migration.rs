//! Upgrading the stored relayer state: reading the Borsh layouts of the
//! state versions this contract has written, and what each becomes.
use vstd::prelude::*;
use vstd::utf8::{decode_utf8, encode_utf8, encode_utf8_decode_utf8, encode_utf8_valid_utf8, valid_utf8};
use crate::errors::RelayerError;
use crate::events::RelayerEvent;
use crate::state::{
    DEFAULT_BASE_FEE, DEFAULT_CHUNK_SIZE, DEFAULT_CROSS_CONTRACT_GAS, DEFAULT_MAX_BALANCE,
    DEFAULT_MAX_GAS_POOL, DEFAULT_MIGRATION_GAS, DEFAULT_MIN_BALANCE, DEFAULT_SPONSOR_AMOUNT,
    DEFAULT_MIN_GAS_POOL, DEFAULT_SPONSOR_GAS, PendingTransfer, Relayer, initial_version,
    latest_version,
};
use crate::borsh::{
    enc_bytes, enc_string, fits_len, le_bytes, lemma_le_bytes_len, put_bytes, put_string,
    put_u128, put_u64, string_fits,
};
use crate::text::{account_id_rule, utf8_to_string, validate_account_id};
use crate::types::sub_bytes;

verus! {

/// The number little-endian bytes stand for.
pub open spec fn le_value(s: Seq<u8>) -> nat
    decreases s.len(),
{
    if s.len() == 0 {
        0
    } else {
        (s[0] + 256 * le_value(s.drop_first())) as nat
    }
}

/// 256 to the power `k`.
pub open spec fn pow256(k: nat) -> nat
    decreases k,
{
    if k == 0 {
        1
    } else {
        256 * pow256((k - 1) as nat)
    }
}

/// Where a read ended, or -1 when it failed (so that every later read fails).
pub open spec fn next<T>(o: Option<(T, int)>) -> int {
    match o {
        Some(x) => x.1,
        None => -1,
    }
}

/// An `n`-byte little-endian number at `at`, and where it ends.
pub open spec fn rd_uint(b: Seq<u8>, at: int, n: nat) -> Option<(nat, int)> {
    if 0 <= at && at + n <= b.len() {
        Some((le_value(b.subrange(at, at + n)), at + n))
    } else {
        None
    }
}

/// A byte string at `at` (a `u32` length, then the bytes), and where it ends.
pub open spec fn rd_bytes(b: Seq<u8>, at: int) -> Option<(Seq<u8>, int)> {
    match rd_uint(b, at, 4) {
        None => None,
        Some((n, p)) => if p + n <= b.len() {
            Some((b.subrange(p, p + n), p + n))
        } else {
            None
        },
    }
}

/// A string at `at`: a byte string holding valid UTF-8.
pub open spec fn rd_string(b: Seq<u8>, at: int) -> Option<(Seq<char>, int)> {
    match rd_bytes(b, at) {
        None => None,
        Some((s, p)) => if valid_utf8(s) {
            Some((decode_utf8(s), p))
        } else {
            None
        },
    }
}

/// An account id at `at`: a string that follows the account id rule.
pub open spec fn rd_account(b: Seq<u8>, at: int) -> Option<(Seq<char>, int)> {
    match rd_string(b, at) {
        None => None,
        Some((s, p)) => if account_id_rule(s) {
            Some((s, p))
        } else {
            None
        },
    }
}

/// The state layouts the contract has stored: version 0.1.0, version 0.1.1
/// (which added the balance limits and the fee), and the current one (which
/// added the bridge nonces).
#[derive(Clone, Copy, Debug, PartialEq, Eq, Structural)]
pub enum StateLayout {
    V010,
    V011,
    Current,
}

/// The relayer state as stored. The collections are stored elsewhere under
/// their prefixes; the state holds the prefixes.
pub struct StoredRelayerV {
    pub version: Seq<char>,
    pub manager: Seq<char>,
    pub offload_recipient: Seq<char>,
    pub auth_contract: Seq<char>,
    pub ft_wrapper_contract: Seq<char>,
    pub omni_locker_prefix: Seq<u8>,
    pub chain_mpc_prefix: Seq<u8>,
    pub sponsor_amount: nat,
    pub sponsor_gas: nat,
    pub cross_contract_gas: nat,
    pub migration_gas: nat,
    pub chunk_size: nat,
    /// The minimum balance, maximum balance and base fee (from 0.1.1 on).
    pub balances: Option<(nat, nat, nat)>,
    /// The prefix of the bridge nonces (current layout only).
    pub nonces_prefix: Option<Seq<u8>>,
}

/// What the state bytes hold when read in `layout`, if they are exactly a
/// state of that layout.
pub open spec fn parse_stored(b: Seq<u8>, layout: StateLayout) -> Option<StoredRelayerV> {
    let version = rd_string(b, 0);
    let manager = rd_account(b, next(version));
    let offload = rd_account(b, next(manager));
    let auth = rd_account(b, next(offload));
    let ft = rd_account(b, next(auth));
    let locker = rd_bytes(b, next(ft));
    let mpc = rd_bytes(b, next(locker));
    let sponsor_amount = rd_uint(b, next(mpc), 16);
    let sponsor_gas = rd_uint(b, next(sponsor_amount), 8);
    let cross = rd_uint(b, next(sponsor_gas), 8);
    let migration = rd_uint(b, next(cross), 8);
    let chunk = rd_uint(b, next(migration), 8);
    let min = rd_uint(b, next(chunk), 16);
    let max = rd_uint(b, next(min), 16);
    let fee = rd_uint(b, next(max), 16);
    let nonces = rd_bytes(b, next(fee));
    let end = match layout {
        StateLayout::V010 => next(chunk),
        StateLayout::V011 => next(fee),
        StateLayout::Current => next(nonces),
    };
    if end == b.len() && chunk.unwrap().0 <= usize::MAX {
        Some(
            StoredRelayerV {
                version: version.unwrap().0,
                manager: manager.unwrap().0,
                offload_recipient: offload.unwrap().0,
                auth_contract: auth.unwrap().0,
                ft_wrapper_contract: ft.unwrap().0,
                omni_locker_prefix: locker.unwrap().0,
                chain_mpc_prefix: mpc.unwrap().0,
                sponsor_amount: sponsor_amount.unwrap().0,
                sponsor_gas: sponsor_gas.unwrap().0,
                cross_contract_gas: cross.unwrap().0,
                migration_gas: migration.unwrap().0,
                chunk_size: chunk.unwrap().0,
                balances: if layout == StateLayout::V010 {
                    None
                } else {
                    Some((min.unwrap().0, max.unwrap().0, fee.unwrap().0))
                },
                nonces_prefix: if layout == StateLayout::Current {
                    Some(nonces.unwrap().0)
                } else {
                    None
                },
            },
        )
    } else {
        None
    }
}

/// The relayer state as stored, in whatever layout it was read.
#[derive(Debug)]
pub struct StoredRelayer {
    pub version: String,
    pub manager: String,
    pub offload_recipient: String,
    pub auth_contract: String,
    pub ft_wrapper_contract: String,
    pub omni_locker_prefix: Vec<u8>,
    pub chain_mpc_prefix: Vec<u8>,
    pub sponsor_amount: u128,
    pub sponsor_gas: u64,
    pub cross_contract_gas: u64,
    pub migration_gas: u64,
    pub chunk_size: usize,
    pub balances: Option<(u128, u128, u128)>,
    pub nonces_prefix: Option<Vec<u8>>,
}

impl View for StoredRelayer {
    type V = StoredRelayerV;

    open spec fn view(&self) -> StoredRelayerV {
        StoredRelayerV {
            version: self.version@,
            manager: self.manager@,
            offload_recipient: self.offload_recipient@,
            auth_contract: self.auth_contract@,
            ft_wrapper_contract: self.ft_wrapper_contract@,
            omni_locker_prefix: self.omni_locker_prefix@,
            chain_mpc_prefix: self.chain_mpc_prefix@,
            sponsor_amount: self.sponsor_amount as nat,
            sponsor_gas: self.sponsor_gas as nat,
            cross_contract_gas: self.cross_contract_gas as nat,
            migration_gas: self.migration_gas as nat,
            chunk_size: self.chunk_size as nat,
            balances: match self.balances {
                Some((a, b, c)) => Some((a as nat, b as nat, c as nat)),
                None => None,
            },
            nonces_prefix: match self.nonces_prefix {
                Some(p) => Some(p@),
                None => None,
            },
        }
    }
}

proof fn lemma_le_value_bound(s: Seq<u8>)
    ensures
        le_value(s) < pow256(s.len()),
    decreases s.len(),
{
    if s.len() > 0 {
        lemma_le_value_bound(s.drop_first());
    }
}

proof fn lemma_le_value_push_front(s: Seq<u8>, i: int, end: int)
    requires
        0 <= i < end <= s.len(),
    ensures
        le_value(s.subrange(i, end)) == s[i] + 256 * le_value(s.subrange(i + 1, end)),
{
    assert(s.subrange(i, end).drop_first() =~= s.subrange(i + 1, end));
}

/// An `n`-byte little-endian number at `at` (at most 16 bytes).
fn read_uint(b: &Vec<u8>, at: usize, n: usize) -> (r: Option<(u128, usize)>)
    requires
        n <= 16,
    ensures
        match rd_uint(b@, at as int, n as nat) {
            None => r is None,
            Some((v, p)) => r matches Some((x, q)) && x == v && q == p,
        },
        r matches Some((x, _)) ==> x < pow256(n as nat),
{
    let len = b.len();
    if at > len || len - at < n {
        return None;
    }
    let end = at + n;
    let mut v: u128 = 0;
    let mut i: usize = end;
    proof {
        assert(b@.subrange(end as int, end as int) =~= Seq::<u8>::empty());
        lemma_pow256_values();
    }
    while i > at
        invariant
            at <= i <= end,
            end == at + n,
            n <= 16,
            end <= b@.len(),
            v == le_value(b@.subrange(i as int, end as int)),
            v < pow256((end - i) as nat),
            pow256(16) == 0x1_0000_0000_0000_0000_0000_0000_0000_0000,
        decreases i - at,
    {
        i = i - 1;
        proof {
            lemma_le_value_push_front(b@, i as int, end as int);
            lemma_le_value_bound(b@.subrange(i + 1, end as int));
            lemma_pow256_mono((end - i - 1) as nat, 15);
        }
        v = b[i] as u128 + 256 * v;
    }
    proof {
        assert(b@.subrange(at as int, end as int).len() == n);
    }
    Some((v, end))
}

pub proof fn lemma_pow256_values()
    ensures
        pow256(4) == 0x1_0000_0000,
        pow256(8) == 0x1_0000_0000_0000_0000,
        pow256(16) == 0x1_0000_0000_0000_0000_0000_0000_0000_0000,
{
    assert(pow256(0) == 1);
    assert(pow256(1) == 0x100);
    assert(pow256(2) == 0x1_0000);
    assert(pow256(3) == 0x100_0000);
    assert(pow256(4) == 0x1_0000_0000);
    assert(pow256(5) == 0x100_0000_0000);
    assert(pow256(6) == 0x1_0000_0000_0000);
    assert(pow256(7) == 0x100_0000_0000_0000);
    assert(pow256(8) == 0x1_0000_0000_0000_0000);
    assert(pow256(9) == 0x100_0000_0000_0000_0000);
    assert(pow256(10) == 0x1_0000_0000_0000_0000_0000);
    assert(pow256(11) == 0x100_0000_0000_0000_0000_0000);
    assert(pow256(12) == 0x1_0000_0000_0000_0000_0000_0000);
    assert(pow256(13) == 0x100_0000_0000_0000_0000_0000_0000);
    assert(pow256(14) == 0x1_0000_0000_0000_0000_0000_0000_0000);
    assert(pow256(15) == 0x100_0000_0000_0000_0000_0000_0000_0000);
    assert(pow256(16) == 0x1_0000_0000_0000_0000_0000_0000_0000_0000);
}

pub proof fn lemma_pow256_mono(a: nat, b: nat)
    requires
        a <= b,
    ensures
        pow256(a) <= pow256(b),
    decreases b,
{
    if a < b {
        lemma_pow256_mono(a, (b - 1) as nat);
    }
}

/// A byte string at `at`.
fn read_bytes(b: &Vec<u8>, at: usize) -> (r: Option<(Vec<u8>, usize)>)
    ensures
        match rd_bytes(b@, at as int) {
            None => r is None,
            Some((s, p)) => r matches Some((x, q)) && x@ == s && q == p,
        },
{
    let (n, p) = match read_uint(b, at, 4) {
        Some(x) => x,
        None => {
            return None;
        },
    };
    proof {
        lemma_pow256_values();
    }
    let len = b.len();
    let room: u128 = (len - p) as u128;
    if room < n {
        return None;
    }
    let end = p + n as usize;
    Some((sub_bytes(b, p, end), end))
}

/// A string at `at`.
fn read_string(b: &Vec<u8>, at: usize) -> (r: Option<(String, usize)>)
    ensures
        match rd_string(b@, at as int) {
            None => r is None,
            Some((s, p)) => r matches Some((x, q)) && x@ == s && q == p,
        },
{
    let (bytes, p) = match read_bytes(b, at) {
        Some(x) => x,
        None => {
            return None;
        },
    };
    match utf8_to_string(bytes.as_slice()) {
        Some(s) => {
            proof {
                encode_utf8_decode_utf8(s@);
            }
            Some((s, p))
        },
        None => None,
    }
}

/// An account id at `at`.
fn read_account(b: &Vec<u8>, at: usize) -> (r: Option<(String, usize)>)
    ensures
        match rd_account(b@, at as int) {
            None => r is None,
            Some((s, p)) => r matches Some((x, q)) && x@ == s && q == p,
        },
{
    match read_string(b, at) {
        Some((s, p)) => if validate_account_id(s.as_str()) {
            Some((s, p))
        } else {
            None
        },
        None => None,
    }
}

/// Reads the state bytes in `layout`.
pub fn read_stored(b: &Vec<u8>, layout: StateLayout) -> (r: Option<StoredRelayer>)
    ensures
        match parse_stored(b@, layout) {
            None => r is None,
            Some(v) => r matches Some(s) && s@ == v,
        },
{
    let (version, p) = match read_string(b, 0) {
        Some(x) => x,
        None => {
            return None;
        },
    };
    let (manager, p) = match read_account(b, p) {
        Some(x) => x,
        None => {
            return None;
        },
    };
    let (offload_recipient, p) = match read_account(b, p) {
        Some(x) => x,
        None => {
            return None;
        },
    };
    let (auth_contract, p) = match read_account(b, p) {
        Some(x) => x,
        None => {
            return None;
        },
    };
    let (ft_wrapper_contract, p) = match read_account(b, p) {
        Some(x) => x,
        None => {
            return None;
        },
    };
    let (omni_locker_prefix, p) = match read_bytes(b, p) {
        Some(x) => x,
        None => {
            return None;
        },
    };
    let (chain_mpc_prefix, p) = match read_bytes(b, p) {
        Some(x) => x,
        None => {
            return None;
        },
    };
    let (sponsor_amount, p) = match read_uint(b, p, 16) {
        Some(x) => x,
        None => {
            return None;
        },
    };
    let (sponsor_gas, p) = match read_uint(b, p, 8) {
        Some(x) => x,
        None => {
            return None;
        },
    };
    let (cross_contract_gas, p) = match read_uint(b, p, 8) {
        Some(x) => x,
        None => {
            return None;
        },
    };
    let (migration_gas, p) = match read_uint(b, p, 8) {
        Some(x) => x,
        None => {
            return None;
        },
    };
    let (chunk_size, p) = match read_uint(b, p, 8) {
        Some(x) => x,
        None => {
            return None;
        },
    };
    proof {
        lemma_pow256_values();
    }
    if chunk_size > usize::MAX as u128 {
        return None;
    }
    let mut stored = StoredRelayer {
        version,
        manager,
        offload_recipient,
        auth_contract,
        ft_wrapper_contract,
        omni_locker_prefix,
        chain_mpc_prefix,
        sponsor_amount,
        sponsor_gas: sponsor_gas as u64,
        cross_contract_gas: cross_contract_gas as u64,
        migration_gas: migration_gas as u64,
        chunk_size: chunk_size as usize,
        balances: None,
        nonces_prefix: None,
    };
    if layout == StateLayout::V010 {
        if p != b.len() {
            return None;
        }
        return Some(stored);
    }
    let (min_balance, p) = match read_uint(b, p, 16) {
        Some(x) => x,
        None => {
            return None;
        },
    };
    let (max_balance, p) = match read_uint(b, p, 16) {
        Some(x) => x,
        None => {
            return None;
        },
    };
    let (base_fee, p) = match read_uint(b, p, 16) {
        Some(x) => x,
        None => {
            return None;
        },
    };
    stored.balances = Some((min_balance, max_balance, base_fee));
    if layout == StateLayout::V011 {
        if p != b.len() {
            return None;
        }
        return Some(stored);
    }
    let (nonces_prefix, p) = match read_bytes(b, p) {
        Some(x) => x,
        None => {
            return None;
        },
    };
    if p != b.len() {
        return None;
    }
    stored.nonces_prefix = Some(nonces_prefix);
    Some(stored)
}

/// The balance limits and fee as stored: three 16-byte numbers, or nothing.
pub open spec fn enc_balances(o: Option<(nat, nat, nat)>) -> Seq<u8> {
    match o {
        Some((a, b, c)) => le_bytes(a, 16) + le_bytes(b, 16) + le_bytes(c, 16),
        None => Seq::empty(),
    }
}

/// The prefix of the bridge nonces as stored, or nothing.
pub open spec fn enc_nonces(o: Option<Seq<u8>>) -> Seq<u8> {
    match o {
        Some(p) => enc_bytes(p),
        None => Seq::empty(),
    }
}

/// The state bytes of a stored state: its fields in order, in the layout
/// its optional parts call for.
pub open spec fn enc_stored(s: StoredRelayerV) -> Seq<u8> {
    enc_string(s.version) + enc_string(s.manager) + enc_string(s.offload_recipient) + enc_string(
        s.auth_contract,
    ) + enc_string(s.ft_wrapper_contract) + enc_bytes(s.omni_locker_prefix) + enc_bytes(
        s.chain_mpc_prefix,
    ) + le_bytes(s.sponsor_amount, 16) + le_bytes(s.sponsor_gas, 8) + le_bytes(
        s.cross_contract_gas,
        8,
    ) + le_bytes(s.migration_gas, 8) + le_bytes(s.chunk_size, 8) + enc_balances(s.balances)
        + enc_nonces(s.nonces_prefix)
}

/// Whether a stored state can be written: every string and prefix has a
/// length Borsh can write.
pub open spec fn stored_fits(s: StoredRelayerV) -> bool {
    &&& string_fits(s.version)
    &&& string_fits(s.manager)
    &&& string_fits(s.offload_recipient)
    &&& string_fits(s.auth_contract)
    &&& string_fits(s.ft_wrapper_contract)
    &&& fits_len(s.omni_locker_prefix.len())
    &&& fits_len(s.chain_mpc_prefix.len())
    &&& match s.nonces_prefix {
        Some(p) => fits_len(p.len()),
        None => true,
    }
}

/// A stored state that a read in `layout` can give: it can be written, its
/// accounts follow the account id rule, its numbers fit their widths, and
/// its optional parts are those of the layout.
pub open spec fn stored_valid(s: StoredRelayerV, layout: StateLayout) -> bool {
    &&& stored_fits(s)
    &&& account_id_rule(s.manager)
    &&& account_id_rule(s.offload_recipient)
    &&& account_id_rule(s.auth_contract)
    &&& account_id_rule(s.ft_wrapper_contract)
    &&& s.sponsor_amount <= u128::MAX
    &&& s.sponsor_gas <= u64::MAX
    &&& s.cross_contract_gas <= u64::MAX
    &&& s.migration_gas <= u64::MAX
    &&& s.chunk_size <= usize::MAX
    &&& match s.balances {
        Some((a, b, c)) => layout != StateLayout::V010 && a <= u128::MAX && b <= u128::MAX && c
            <= u128::MAX,
        None => layout == StateLayout::V010,
    }
    &&& (s.nonces_prefix is Some <==> layout == StateLayout::Current)
}

/// Writes a stored state; `None` when a string or prefix is too long.
pub fn encode_stored(s: &StoredRelayer) -> (r: Option<Vec<u8>>)
    ensures
        r is Some <==> stored_fits(s@),
        r matches Some(b) ==> b@ == enc_stored(s@),
{
    let mut out: Vec<u8> = Vec::new();
    if !put_string(&mut out, &s.version) {
        return None;
    }
    if !put_string(&mut out, &s.manager) {
        return None;
    }
    if !put_string(&mut out, &s.offload_recipient) {
        return None;
    }
    if !put_string(&mut out, &s.auth_contract) {
        return None;
    }
    if !put_string(&mut out, &s.ft_wrapper_contract) {
        return None;
    }
    if !put_bytes(&mut out, s.omni_locker_prefix.as_slice()) {
        return None;
    }
    if !put_bytes(&mut out, s.chain_mpc_prefix.as_slice()) {
        return None;
    }
    put_u128(&mut out, s.sponsor_amount);
    put_u64(&mut out, s.sponsor_gas);
    put_u64(&mut out, s.cross_contract_gas);
    put_u64(&mut out, s.migration_gas);
    put_u64(&mut out, s.chunk_size as u64);
    let ghost fixed = out@;
    match s.balances {
        Some((a, b, c)) => {
            put_u128(&mut out, a);
            put_u128(&mut out, b);
            put_u128(&mut out, c);
            assert(out@ =~= fixed + enc_balances(s@.balances));
        },
        None => {
            assert(out@ =~= fixed + enc_balances(s@.balances));
        },
    }
    let ghost with_balances = out@;
    match &s.nonces_prefix {
        Some(p) => {
            if !put_bytes(&mut out, p.as_slice()) {
                return None;
            }
        },
        None => {},
    }
    assert(out@ =~= with_balances + enc_nonces(s@.nonces_prefix));
    assert(out@ =~= enc_stored(s@));
    Some(out)
}

/// Little-endian bytes read back as the number they were written from.
pub proof fn lemma_le_round(x: nat, n: nat)
    requires
        x < pow256(n),
    ensures
        le_value(le_bytes(x, n)) == x,
        le_bytes(x, n).len() == n,
    decreases n,
{
    lemma_le_bytes_len(x, n);
    if n > 0 {
        let m = (n - 1) as nat;
        assert(x / 256 < pow256(m)) by (nonlinear_arith)
            requires
                x < 256 * pow256(m),
        ;
        lemma_le_round(x / 256, m);
        assert(le_bytes(x, n).drop_first() =~= le_bytes(x / 256, m));
        vstd::arithmetic::div_mod::lemma_fundamental_div_mod(x as int, 256);
    }
}

/// The first `pre.len() + p.len()` bytes being `pre + p`, the first
/// `pre.len()` are `pre` and the next `p.len()` are `p`.
pub proof fn lemma_split(b: Seq<u8>, pre: Seq<u8>, p: Seq<u8>)
    requires
        pre.len() + p.len() <= b.len(),
        b.subrange(0, (pre.len() + p.len()) as int) == pre + p,
    ensures
        b.subrange(0, pre.len() as int) == pre,
        b.subrange(pre.len() as int, (pre.len() + p.len()) as int) == p,
{
    assert forall|i: int| 0 <= i < pre.len() + p.len() implies b[i] == (pre + p)[i] by {
        assert(b.subrange(0, (pre.len() + p.len()) as int)[i] == b[i]);
    }
    assert(b.subrange(0, pre.len() as int) =~= pre);
    assert(b.subrange(pre.len() as int, (pre.len() + p.len()) as int) =~= p);
}

pub proof fn lemma_rd_uint_at(b: Seq<u8>, at: int, x: nat, n: nat)
    requires
        0 <= at,
        at + n <= b.len(),
        b.subrange(at, at + n) == le_bytes(x, n),
        x < pow256(n),
    ensures
        rd_uint(b, at, n) == Some((x, at + n)),
{
    lemma_le_round(x, n);
}

pub proof fn lemma_rd_bytes_at(b: Seq<u8>, at: int, s: Seq<u8>)
    requires
        0 <= at,
        at + 4 + s.len() <= b.len(),
        b.subrange(at, at + 4 + s.len()) == enc_bytes(s),
        fits_len(s.len()),
    ensures
        rd_bytes(b, at) == Some((s, at + 4 + s.len())),
{
    lemma_pow256_values();
    lemma_le_bytes_len(s.len(), 4);
    let whole = b.subrange(at, at + 4 + s.len());
    assert forall|i: int| 0 <= i < 4 + s.len() implies b[at + i] == enc_bytes(s)[i] by {
        assert(whole[i] == b[at + i]);
    }
    assert(b.subrange(at, at + 4) =~= le_bytes(s.len(), 4));
    lemma_rd_uint_at(b, at, s.len(), 4);
    assert forall|j: int| 0 <= j < s.len() implies b.subrange(at + 4, at + 4 + s.len())[j]
        == s[j] by {
        assert(b[at + 4 + j] == enc_bytes(s)[4 + j]);
    }
    assert(b.subrange(at + 4, at + 4 + s.len()) =~= s);
}

pub proof fn lemma_rd_string_at(b: Seq<u8>, at: int, s: Seq<char>)
    requires
        0 <= at,
        at + 4 + encode_utf8(s).len() <= b.len(),
        b.subrange(at, at + 4 + encode_utf8(s).len()) == enc_string(s),
        string_fits(s),
    ensures
        rd_string(b, at) == Some((s, at + 4 + encode_utf8(s).len())),
{
    lemma_rd_bytes_at(b, at, encode_utf8(s));
    encode_utf8_valid_utf8(s);
    encode_utf8_decode_utf8(s);
}

/// Where each field of a stored state ends in its bytes.
struct FieldEnds {
    version: int,
    manager: int,
    offload: int,
    auth: int,
    ft: int,
    locker: int,
    mpc: int,
    amount: int,
    sponsor_gas: int,
    cross: int,
    migration: int,
    chunk: int,
    end: int,
}

/// Each field of `s` read in turn from `b`, and the reads ending where the
/// layout ends, `b` holds `s` in that layout.
#[verifier::rlimit(60)]
proof fn lemma_parse_from_reads(b: Seq<u8>, s: StoredRelayerV, layout: StateLayout, o: FieldEnds)
    requires
        rd_string(b, 0) == Some((s.version, o.version)),
        rd_account(b, o.version) == Some((s.manager, o.manager)),
        rd_account(b, o.manager) == Some((s.offload_recipient, o.offload)),
        rd_account(b, o.offload) == Some((s.auth_contract, o.auth)),
        rd_account(b, o.auth) == Some((s.ft_wrapper_contract, o.ft)),
        rd_bytes(b, o.ft) == Some((s.omni_locker_prefix, o.locker)),
        rd_bytes(b, o.locker) == Some((s.chain_mpc_prefix, o.mpc)),
        rd_uint(b, o.mpc, 16) == Some((s.sponsor_amount, o.amount)),
        rd_uint(b, o.amount, 8) == Some((s.sponsor_gas, o.sponsor_gas)),
        rd_uint(b, o.sponsor_gas, 8) == Some((s.cross_contract_gas, o.cross)),
        rd_uint(b, o.cross, 8) == Some((s.migration_gas, o.migration)),
        rd_uint(b, o.migration, 8) == Some((s.chunk_size, o.chunk)),
        s.chunk_size <= usize::MAX,
        layout == StateLayout::V010 ==> s.balances is None && s.nonces_prefix is None && o.chunk
            == b.len(),
        layout != StateLayout::V010 ==> (s.balances matches Some((lo, hi, fee)) && rd_uint(
            b,
            o.chunk,
            16,
        ) == Some((lo, o.chunk + 16)) && rd_uint(b, o.chunk + 16, 16) == Some((hi, o.chunk + 32))
            && rd_uint(b, o.chunk + 32, 16) == Some((fee, o.chunk + 48))),
        layout == StateLayout::V011 ==> s.nonces_prefix is None && o.chunk + 48 == b.len(),
        layout == StateLayout::Current ==> (s.nonces_prefix matches Some(p) && rd_bytes(
            b,
            o.chunk + 48,
        ) == Some((p, o.end)) && o.end == b.len()),
    ensures
        parse_stored(b, layout) == Some(s),
{
}

/// The strings and prefixes at the front of the state read back from their
/// places in `b`.
proof fn lemma_reads_front(b: Seq<u8>, s: StoredRelayerV, layout: StateLayout, o: FieldEnds)
    requires
        stored_valid(s, layout),
        o.version == 4 + encode_utf8(s.version).len(),
        o.manager == o.version + 4 + encode_utf8(s.manager).len(),
        o.offload == o.manager + 4 + encode_utf8(s.offload_recipient).len(),
        o.auth == o.offload + 4 + encode_utf8(s.auth_contract).len(),
        o.ft == o.auth + 4 + encode_utf8(s.ft_wrapper_contract).len(),
        o.locker == o.ft + 4 + s.omni_locker_prefix.len(),
        o.mpc == o.locker + 4 + s.chain_mpc_prefix.len(),
        o.mpc <= b.len(),
        b.subrange(0, o.version) == enc_string(s.version),
        b.subrange(o.version, o.manager) == enc_string(s.manager),
        b.subrange(o.manager, o.offload) == enc_string(s.offload_recipient),
        b.subrange(o.offload, o.auth) == enc_string(s.auth_contract),
        b.subrange(o.auth, o.ft) == enc_string(s.ft_wrapper_contract),
        b.subrange(o.ft, o.locker) == enc_bytes(s.omni_locker_prefix),
        b.subrange(o.locker, o.mpc) == enc_bytes(s.chain_mpc_prefix),
    ensures
        rd_string(b, 0) == Some((s.version, o.version)),
        rd_account(b, o.version) == Some((s.manager, o.manager)),
        rd_account(b, o.manager) == Some((s.offload_recipient, o.offload)),
        rd_account(b, o.offload) == Some((s.auth_contract, o.auth)),
        rd_account(b, o.auth) == Some((s.ft_wrapper_contract, o.ft)),
        rd_bytes(b, o.ft) == Some((s.omni_locker_prefix, o.locker)),
        rd_bytes(b, o.locker) == Some((s.chain_mpc_prefix, o.mpc)),
{
    lemma_rd_string_at(b, 0, s.version);
    lemma_rd_string_at(b, o.version, s.manager);
    lemma_rd_string_at(b, o.manager, s.offload_recipient);
    lemma_rd_string_at(b, o.offload, s.auth_contract);
    lemma_rd_string_at(b, o.auth, s.ft_wrapper_contract);
    lemma_rd_bytes_at(b, o.ft, s.omni_locker_prefix);
    lemma_rd_bytes_at(b, o.locker, s.chain_mpc_prefix);
}

/// The numbers, limits and nonces prefix at the back of the state read back
/// from their places in `b`.
proof fn lemma_reads_back(b: Seq<u8>, s: StoredRelayerV, layout: StateLayout, o: FieldEnds)
    requires
        stored_valid(s, layout),
        0 <= o.mpc,
        o.amount == o.mpc + 16,
        o.sponsor_gas == o.amount + 8,
        o.cross == o.sponsor_gas + 8,
        o.migration == o.cross + 8,
        o.chunk == o.migration + 8,
        o.chunk <= b.len(),
        b.subrange(o.mpc, o.amount) == le_bytes(s.sponsor_amount, 16),
        b.subrange(o.amount, o.sponsor_gas) == le_bytes(s.sponsor_gas, 8),
        b.subrange(o.sponsor_gas, o.cross) == le_bytes(s.cross_contract_gas, 8),
        b.subrange(o.cross, o.migration) == le_bytes(s.migration_gas, 8),
        b.subrange(o.migration, o.chunk) == le_bytes(s.chunk_size, 8),
        o.chunk + enc_balances(s.balances).len() <= b.len(),
        b.subrange(o.chunk, o.chunk + enc_balances(s.balances).len()) == enc_balances(s.balances),
        o.end == b.len(),
        b.subrange(o.chunk + enc_balances(s.balances).len(), o.end) == enc_nonces(s.nonces_prefix),
        rd_string(b, 0) == Some((s.version, o.version)),
        rd_account(b, o.version) == Some((s.manager, o.manager)),
        rd_account(b, o.manager) == Some((s.offload_recipient, o.offload)),
        rd_account(b, o.offload) == Some((s.auth_contract, o.auth)),
        rd_account(b, o.auth) == Some((s.ft_wrapper_contract, o.ft)),
        rd_bytes(b, o.ft) == Some((s.omni_locker_prefix, o.locker)),
        rd_bytes(b, o.locker) == Some((s.chain_mpc_prefix, o.mpc)),
    ensures
        parse_stored(b, layout) == Some(s),
{
    lemma_pow256_values();
    lemma_pow256_mono(8, 16);
    lemma_rd_uint_at(b, o.mpc, s.sponsor_amount, 16);
    lemma_rd_uint_at(b, o.amount, s.sponsor_gas, 8);
    lemma_rd_uint_at(b, o.sponsor_gas, s.cross_contract_gas, 8);
    lemma_rd_uint_at(b, o.cross, s.migration_gas, 8);
    lemma_rd_uint_at(b, o.migration, s.chunk_size, 8);
    let o11 = o.chunk;
    match s.balances {
        Some((lo, hi, fee)) => {
            lemma_le_bytes_len(lo, 16);
            lemma_le_bytes_len(hi, 16);
            lemma_le_bytes_len(fee, 16);
            let p12 = enc_balances(s.balances);
            let whole = b.subrange(o11, o11 + 48);
            assert forall|i: int| 0 <= i < 48 implies b[o11 + i] == p12[i] by {
                assert(whole[i] == b[o11 + i]);
            }
            assert(b.subrange(o11, o11 + 16) =~= le_bytes(lo, 16));
            let ab = le_bytes(lo, 16) + le_bytes(hi, 16);
            assert forall|j: int| 0 <= j < 16 implies b.subrange(o11 + 16, o11 + 32)[j]
                == le_bytes(hi, 16)[j] by {
                assert(b[o11 + 16 + j] == p12[16 + j]);
                assert(p12[16 + j] == ab[16 + j]);
            }
            assert forall|j: int| 0 <= j < 16 implies b.subrange(o11 + 32, o11 + 48)[j]
                == le_bytes(fee, 16)[j] by {
                assert(b[o11 + 32 + j] == p12[32 + j]);
            }
            assert(b.subrange(o11 + 16, o11 + 32) =~= le_bytes(hi, 16));
            assert(b.subrange(o11 + 32, o11 + 48) =~= le_bytes(fee, 16));
            lemma_rd_uint_at(b, o11, lo, 16);
            lemma_rd_uint_at(b, o11 + 16, hi, 16);
            lemma_rd_uint_at(b, o11 + 32, fee, 16);
        },
        None => {},
    }
    match s.nonces_prefix {
        Some(p) => {
            lemma_le_bytes_len(p.len(), 4);
            if let Some((lo, hi, fee)) = s.balances {
                lemma_le_bytes_len(lo, 16);
                lemma_le_bytes_len(hi, 16);
                lemma_le_bytes_len(fee, 16);
            }
            let start = o11 + enc_balances(s.balances).len();
            assert(b.subrange(start, o.end).len() == 4 + p.len());
            lemma_rd_bytes_at(b, start, p);
        },
        None => {},
    }
    lemma_parse_from_reads(b, s, layout, o);
}

/// Writing a stored state and reading it back in its layout gives the same
/// state.
#[verifier::rlimit(100)]
pub proof fn lemma_stored_round_trip(s: StoredRelayerV, layout: StateLayout)
    requires
        stored_valid(s, layout),
    ensures
        parse_stored(enc_stored(s), layout) == Some(s),
{
    lemma_pow256_values();
    let p0 = enc_string(s.version);
    let p1 = enc_string(s.manager);
    let p2 = enc_string(s.offload_recipient);
    let p3 = enc_string(s.auth_contract);
    let p4 = enc_string(s.ft_wrapper_contract);
    let p5 = enc_bytes(s.omni_locker_prefix);
    let p6 = enc_bytes(s.chain_mpc_prefix);
    let p7 = le_bytes(s.sponsor_amount, 16);
    let p8 = le_bytes(s.sponsor_gas, 8);
    let p9 = le_bytes(s.cross_contract_gas, 8);
    let p10 = le_bytes(s.migration_gas, 8);
    let p11 = le_bytes(s.chunk_size, 8);
    let p12 = enc_balances(s.balances);
    let p13 = enc_nonces(s.nonces_prefix);
    let q2 = p0 + p1;
    let q3 = q2 + p2;
    let q4 = q3 + p3;
    let q5 = q4 + p4;
    let q6 = q5 + p5;
    let q7 = q6 + p6;
    let q8 = q7 + p7;
    let q9 = q8 + p8;
    let q10 = q9 + p9;
    let q11 = q10 + p10;
    let q12 = q11 + p11;
    let q13 = q12 + p12;
    let b = enc_stored(s);
    assert(b == q13 + p13);
    lemma_le_bytes_len(encode_utf8(s.version).len(), 4);
    lemma_le_bytes_len(encode_utf8(s.manager).len(), 4);
    lemma_le_bytes_len(encode_utf8(s.offload_recipient).len(), 4);
    lemma_le_bytes_len(encode_utf8(s.auth_contract).len(), 4);
    lemma_le_bytes_len(encode_utf8(s.ft_wrapper_contract).len(), 4);
    lemma_le_bytes_len(s.omni_locker_prefix.len(), 4);
    lemma_le_bytes_len(s.chain_mpc_prefix.len(), 4);
    lemma_le_bytes_len(s.sponsor_amount, 16);
    lemma_le_bytes_len(s.sponsor_gas, 8);
    lemma_le_bytes_len(s.cross_contract_gas, 8);
    lemma_le_bytes_len(s.migration_gas, 8);
    lemma_le_bytes_len(s.chunk_size, 8);
    assert(b.subrange(0, b.len() as int) =~= b);
    lemma_split(b, q13, p13);
    lemma_split(b, q12, p12);
    lemma_split(b, q11, p11);
    lemma_split(b, q10, p10);
    lemma_split(b, q9, p9);
    lemma_split(b, q8, p8);
    lemma_split(b, q7, p7);
    lemma_split(b, q6, p6);
    lemma_split(b, q5, p5);
    lemma_split(b, q4, p4);
    lemma_split(b, q3, p3);
    lemma_split(b, q2, p2);
    lemma_split(b, p0, p1);
    let o = FieldEnds {
        version: p0.len() as int,
        manager: q2.len() as int,
        offload: q3.len() as int,
        auth: q4.len() as int,
        ft: q5.len() as int,
        locker: q6.len() as int,
        mpc: q7.len() as int,
        amount: q8.len() as int,
        sponsor_gas: q9.len() as int,
        cross: q10.len() as int,
        migration: q11.len() as int,
        chunk: q12.len() as int,
        end: b.len() as int,
    };
    lemma_reads_front(b, s, layout, o);
    lemma_reads_back(b, s, layout, o);
}

/// `nonces` in ASCII: the prefix the bridge nonces are stored under.
pub open spec fn nonces_prefix() -> Seq<u8> {
    seq![110u8, 111u8, 110u8, 99u8, 101u8, 115u8]
}

/// What migrating the stored state gives.
#[derive(Debug)]
pub enum Migration {
    /// The state is at the latest version already and stays as it is.
    Current(StoredRelayer),
    /// An older state, carried over to the latest version.
    Upgraded { state: StoredRelayer, event: RelayerEvent },
    /// No state of a known version: the relayer starts afresh.
    Fresh,
}

/// The stored state found in the bytes: one in the current layout (at any
/// version), else a 0.1.1 state in its layout, else a 0.1.0 state in its
/// layout.
pub open spec fn found_state(b: Seq<u8>) -> Option<StoredRelayerV> {
    let current = parse_stored(b, StateLayout::Current);
    let v011 = parse_stored(b, StateLayout::V011);
    let v010 = parse_stored(b, StateLayout::V010);
    if current is Some {
        current
    } else if v011 is Some && v011.unwrap().version == "0.1.1"@ {
        v011
    } else if v010 is Some && v010.unwrap().version == "0.1.0"@ {
        v010
    } else {
        None
    }
}

/// The state an older one becomes: the latest version, the limits and fee
/// it had (or the defaults, for 0.1.0), and the bridge nonces under their
/// prefix (`nonces` when it had none).
pub open spec fn upgraded(old: StoredRelayerV) -> StoredRelayerV {
    StoredRelayerV {
        version: latest_version(),
        balances: match old.balances {
            Some(b) => Some(b),
            None => Some(
                (
                    DEFAULT_MIN_BALANCE as nat,
                    DEFAULT_MAX_BALANCE as nat,
                    DEFAULT_BASE_FEE as nat,
                ),
            ),
        },
        nonces_prefix: match old.nonces_prefix {
            Some(p) => Some(p),
            None => Some(nonces_prefix()),
        },
        ..old
    }
}

impl Relayer {
    /// Brings the stored state (`state_bytes`) to the latest version. Only
    /// the stored manager may, or the contract itself (`contract_account`,
    /// which calls it after deploying an update the manager asked for), and
    /// only while the relayer is paused. A state at the latest version stays;
    /// an older one is carried over (a 0.1.1 state gains the bridge nonces, a
    /// 0.1.0 state also the default limits and fee); bytes holding no known
    /// state start the relayer afresh, which only the contract itself may
    /// ask for.
    pub fn migrate(
        state_bytes: &Vec<u8>,
        caller: &String,
        contract_account: &String,
        paused: bool,
    ) -> (r: Result<Migration, RelayerError>)
        ensures
            match found_state(state_bytes@) {
                None => if caller@ != contract_account@ {
                    r == Err::<Migration, RelayerError>(RelayerError::Unauthorized)
                } else {
                    r matches Ok(Migration::Fresh)
                },
                Some(s) => if caller@ != s.manager && caller@ != contract_account@ {
                    r == Err::<Migration, RelayerError>(RelayerError::Unauthorized)
                } else if !paused {
                    r == Err::<Migration, RelayerError>(RelayerError::ContractPaused)
                } else if s.version == latest_version() {
                    r matches Ok(Migration::Current(x)) && x@ == s
                } else {
                    r matches Ok(Migration::Upgraded { state, event }) && state@ == upgraded(s) && (
                    event matches RelayerEvent::StateMigrated { old_version, new_version }
                        && old_version@ == s.version && new_version@ == latest_version())
                },
            },
    {
        let v011_name = "0.1.1".to_string();
        let v010_name = "0.1.0".to_string();
        let latest = "1.1".to_string();
        proof {
            reveal_strlit("0.1.1");
            reveal_strlit("0.1.0");
            reveal_strlit("1.1");
        }
        let mut state = match read_stored(state_bytes, StateLayout::Current) {
            Some(s) => s,
            None => match read_stored(state_bytes, StateLayout::V011) {
                Some(s) if s.version == v011_name => s,
                _ => match read_stored(state_bytes, StateLayout::V010) {
                    Some(s) if s.version == v010_name => s,
                    _ => {
                        if *contract_account != *caller {
                            return Err(RelayerError::Unauthorized);
                        }
                        return Ok(Migration::Fresh);
                    },
                },
            },
        };
        if state.manager != *caller && *contract_account != *caller {
            return Err(RelayerError::Unauthorized);
        }
        if !paused {
            return Err(RelayerError::ContractPaused);
        }
        if state.version == latest {
            return Ok(Migration::Current(state));
        }
        let old_version = state.version.clone();
        state.version = latest.clone();
        if state.balances.is_none() {
            state.balances = Some((DEFAULT_MIN_BALANCE, DEFAULT_MAX_BALANCE, DEFAULT_BASE_FEE));
        }
        if state.nonces_prefix.is_none() {
            state.nonces_prefix = Some(vec![110u8, 111u8, 110u8, 99u8, 101u8, 115u8]);
        }
        let event = RelayerEvent::StateMigrated { old_version, new_version: latest };
        Ok(Migration::Upgraded { state, event })
    }
}

impl Relayer {
    /// The relayer a migration starts afresh with: managed by the contract's
    /// own account, with placeholder testnet accounts as offload recipient,
    /// auth contract and token wrapper, and every default of `new`.
    pub fn fresh(current_account_id: String) -> (r: Relayer)
        ensures
            r.version@ == initial_version(),
            r.manager == current_account_id,
            r.offload_recipient@ == "recipient.testnet"@,
            r.auth_contract@ == "auth.testnet"@,
            r.ft_wrapper_contract@ == "ft.testnet"@,
            r.omni_locker_contract == Some(current_account_id),
            r.chain_mpc_mapping@.dom() == set!["near"@],
            r.chain_mpc_mapping@["near"@]@ == "mpc.near"@,
            r.transfer_nonces@ == Map::<Seq<char>, u64>::empty(),
            r.pending_transfers@ == Map::<Seq<char>, PendingTransfer>::empty(),
            r.sponsor_amount == DEFAULT_SPONSOR_AMOUNT,
            r.sponsor_gas == DEFAULT_SPONSOR_GAS,
            r.cross_contract_gas == DEFAULT_CROSS_CONTRACT_GAS,
            r.migration_gas == DEFAULT_MIGRATION_GAS,
            r.chunk_size == DEFAULT_CHUNK_SIZE,
            r.min_balance == DEFAULT_MIN_BALANCE,
            r.max_balance == DEFAULT_MAX_BALANCE,
            r.base_fee == DEFAULT_BASE_FEE,
            !r.paused,
            r.gas_pool == 0,
            r.max_gas_pool == DEFAULT_MAX_GAS_POOL,
            r.min_gas_pool == DEFAULT_MIN_GAS_POOL,
    {
        proof {
            reveal_strlit("recipient.testnet");
            reveal_strlit("auth.testnet");
            reveal_strlit("ft.testnet");
        }
        Relayer::new(
            current_account_id.clone(),
            "recipient.testnet".to_string(),
            "auth.testnet".to_string(),
            "ft.testnet".to_string(),
            current_account_id,
        )
    }
}

} // verus!
