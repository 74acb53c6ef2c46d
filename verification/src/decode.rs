//! Borsh read back: readers that take the declared fields of an action, a
//! delegate action and a bridge payload off the front of a byte string, in
//! declaration order, and the proofs that they give back what the encoders
//! of `borsh` wrote.
use vstd::prelude::*;
use vstd::utf8::encode_utf8;
use crate::borsh::{
    action_fits, actions_fit, delegate_fits, enc_action, enc_action_items, enc_bridge_payload,
    enc_account_and_key, enc_bytes, enc_delegate, enc_opt_string, enc_opt_u128, enc_sign_request, enc_string,
    enc_string_items, enc_strings, enc_u128, enc_u32, enc_u64, fits_len, le_bytes,
    lemma_le_bytes_len, opt_string_fits, string_fits, strings_fit,
};
use crate::migration::{
    lemma_pow256_values, lemma_rd_bytes_at, lemma_rd_string_at, lemma_rd_uint_at, next, pow256,
    rd_bytes, rd_string, rd_uint,
};
use crate::types::{ActionV, DelegateActionV};

verus! {

/// An optional `u128` at `at`: a 0 byte, or a 1 byte and the number.
pub open spec fn rd_opt_u128(b: Seq<u8>, at: int) -> Option<(Option<u128>, int)> {
    match rd_uint(b, at, 1) {
        None => None,
        Some((t, p)) => if t == 0 {
            Some((None, p))
        } else if t == 1 {
            match rd_uint(b, p, 16) {
                None => None,
                Some((x, q)) => Some((Some(x as u128), q)),
            }
        } else {
            None
        },
    }
}

/// An optional string at `at`: a 0 byte, or a 1 byte and the string.
pub open spec fn rd_opt_string(b: Seq<u8>, at: int) -> Option<(Option<Seq<char>>, int)> {
    match rd_uint(b, at, 1) {
        None => None,
        Some((t, p)) => if t == 0 {
            Some((None, p))
        } else if t == 1 {
            match rd_string(b, p) {
                None => None,
                Some((s, q)) => Some((Some(s), q)),
            }
        } else {
            None
        },
    }
}

/// `n` strings one after the other, from `at`.
pub open spec fn rd_string_items(b: Seq<u8>, at: int, n: nat) -> Option<(Seq<Seq<char>>, int)>
    decreases n,
{
    if n == 0 {
        Some((Seq::empty(), at))
    } else {
        match rd_string_items(b, at, (n - 1) as nat) {
            None => None,
            Some((ss, p)) => match rd_string(b, p) {
                None => None,
                Some((s, q)) => Some((ss.push(s), q)),
            },
        }
    }
}

/// A vector of strings at `at`: its length (a `u32`), then the strings.
pub open spec fn rd_strings(b: Seq<u8>, at: int) -> Option<(Seq<Seq<char>>, int)> {
    match rd_uint(b, at, 4) {
        None => None,
        Some((n, p)) => rd_string_items(b, p, n),
    }
}

/// An action at `at`: its variant index (one byte), then the variant's
/// fields in the order they are declared.
pub open spec fn read_action(b: Seq<u8>, at: int) -> Option<(ActionV, int)> {
    match rd_uint(b, at, 1) {
        None => None,
        Some((t, p)) => if t == 0 {
            let target_chain = rd_string(b, p);
            let derivation_path = rd_string(b, next(target_chain));
            let payload = rd_bytes(b, next(derivation_path));
            if payload is Some && derivation_path is Some && target_chain is Some {
                Some(
                    (
                        ActionV::ChainSignatureRequest {
                            target_chain: target_chain.unwrap().0,
                            derivation_path: derivation_path.unwrap().0,
                            payload: payload.unwrap().0,
                        },
                        payload.unwrap().1,
                    ),
                )
            } else {
                None
            }
        } else if t == 1 {
            let method_name = rd_string(b, p);
            let args = rd_bytes(b, next(method_name));
            let gas = rd_uint(b, next(args), 8);
            let deposit = rd_uint(b, next(gas), 16);
            if deposit is Some && gas is Some && args is Some && method_name is Some {
                Some(
                    (
                        ActionV::FunctionCall {
                            method_name: method_name.unwrap().0,
                            args: args.unwrap().0,
                            gas: gas.unwrap().0 as u64,
                            deposit: deposit.unwrap().0 as u128,
                        },
                        deposit.unwrap().1,
                    ),
                )
            } else {
                None
            }
        } else if t == 2 {
            match rd_uint(b, p, 16) {
                None => None,
                Some((d, q)) => Some((ActionV::Transfer { deposit: d as u128 }, q)),
            }
        } else if t == 3 {
            let public_key = rd_bytes(b, p);
            let allowance = rd_opt_u128(b, next(public_key));
            let receiver_id = rd_string(b, next(allowance));
            let method_names = rd_strings(b, next(receiver_id));
            if method_names is Some && receiver_id is Some && allowance is Some && public_key is Some {
                Some(
                    (
                        ActionV::AddKey {
                            public_key: public_key.unwrap().0,
                            allowance: allowance.unwrap().0,
                            receiver_id: receiver_id.unwrap().0,
                            method_names: method_names.unwrap().0,
                        },
                        method_names.unwrap().1,
                    ),
                )
            } else {
                None
            }
        } else if t == 4 {
            let token = rd_string(b, p);
            let receiver_id = rd_string(b, next(token));
            let amount = rd_uint(b, next(receiver_id), 16);
            let memo = rd_opt_string(b, next(amount));
            if memo is Some && amount is Some && receiver_id is Some && token is Some {
                Some(
                    (
                        ActionV::FtTransfer {
                            token: token.unwrap().0,
                            receiver_id: receiver_id.unwrap().0,
                            amount: amount.unwrap().0 as u128,
                            memo: memo.unwrap().0,
                        },
                        memo.unwrap().1,
                    ),
                )
            } else {
                None
            }
        } else if t == 5 {
            let token = rd_string(b, p);
            let amount = rd_uint(b, next(token), 16);
            let destination_chain = rd_string(b, next(amount));
            let recipient = rd_string(b, next(destination_chain));
            if recipient is Some && destination_chain is Some && amount is Some && token is Some {
                Some(
                    (
                        ActionV::BridgeTransfer {
                            token: token.unwrap().0,
                            amount: amount.unwrap().0 as u128,
                            destination_chain: destination_chain.unwrap().0,
                            recipient: recipient.unwrap().0,
                        },
                        recipient.unwrap().1,
                    ),
                )
            } else {
                None
            }
        } else {
            None
        },
    }
}

/// `n` actions one after the other, from `at`.
pub open spec fn read_actions(b: Seq<u8>, at: int, n: nat) -> Option<(Seq<ActionV>, int)>
    decreases n,
{
    if n == 0 {
        Some((Seq::empty(), at))
    } else {
        match read_actions(b, at, (n - 1) as nat) {
            None => None,
            Some((acts, p)) => match read_action(b, p) {
                None => None,
                Some((a, q)) => Some((acts.push(a), q)),
            },
        }
    }
}

/// A delegate action filling all of `b`: sender, receiver, the actions (a
/// `u32` count, then each), the nonce and the last valid block height.
pub open spec fn read_delegate(b: Seq<u8>) -> Option<DelegateActionV> {
    let sender = rd_string(b, 0);
    let receiver = rd_string(b, next(sender));
    let count = rd_uint(b, next(receiver), 4);
    let actions = match count {
        None => None,
        Some((n, p)) => read_actions(b, p, n),
    };
    let nonce = rd_uint(b, next(actions), 8);
    let height = rd_uint(b, next(nonce), 8);
    if height is Some && nonce is Some && actions is Some && receiver is Some && sender is Some
        && next(height) == b.len() {
        Some(
            DelegateActionV {
                sender_id: sender.unwrap().0,
                receiver_id: receiver.unwrap().0,
                actions: actions.unwrap().0,
                nonce: nonce.unwrap().0 as u64,
                max_block_height: height.unwrap().0 as u64,
            },
        )
    } else {
        None
    }
}

/// A bridge transfer payload filling all of `b`, read as the payload's
/// fields in declaration order: token, amount, destination chain,
/// recipient, sender and nonce.
#[verifier::opaque]
pub open spec fn read_bridge_payload(b: Seq<u8>) -> Option<
    (Seq<char>, nat, Seq<char>, Seq<char>, Seq<char>, nat),
> {
    let token = rd_string(b, 0);
    let amount = rd_uint(b, next(token), 16);
    let destination_chain = rd_string(b, next(amount));
    let recipient = rd_string(b, next(destination_chain));
    let sender = rd_string(b, next(recipient));
    let nonce = rd_uint(b, next(sender), 8);
    if nonce is Some && sender is Some && recipient is Some && destination_chain is Some
        && amount is Some && token is Some && next(nonce) == b.len() {
        Some(
            (
                token.unwrap().0,
                amount.unwrap().0,
                destination_chain.unwrap().0,
                recipient.unwrap().0,
                sender.unwrap().0,
                nonce.unwrap().0,
            ),
        )
    } else {
        None
    }
}

/// A signing request filling all of `b`: the payload (a byte vector), the
/// derivation path, the key version (`u32`) and the request id (`u64`).
#[verifier::opaque]
pub open spec fn read_sign_request(b: Seq<u8>) -> Option<(Seq<u8>, Seq<char>, nat, nat)> {
    let payload = rd_bytes(b, 0);
    let path = rd_string(b, next(payload));
    let version = rd_uint(b, next(path), 4);
    let request_id = rd_uint(b, next(version), 8);
    if request_id is Some && version is Some && path is Some && payload is Some && next(
        request_id,
    ) == b.len() {
        Some((payload.unwrap().0, path.unwrap().0, version.unwrap().0, request_id.unwrap().0))
    } else {
        None
    }
}

/// The bytes at `at` being `x + y`, those at `at` are `x` and the ones after
/// them are `y`.
pub proof fn lemma_cat(b: Seq<u8>, at: int, x: Seq<u8>, y: Seq<u8>)
    requires
        0 <= at,
        at + x.len() + y.len() <= b.len(),
        b.subrange(at, at + x.len() + y.len()) == x + y,
    ensures
        b.subrange(at, at + x.len()) == x,
        b.subrange(at + x.len(), at + x.len() + y.len()) == y,
{
    let whole = b.subrange(at, at + x.len() + y.len());
    assert forall|i: int| 0 <= i < x.len() + y.len() implies b[at + i] == (x + y)[i] by {
        assert(whole[i] == b[at + i]);
    }
    assert(b.subrange(at, at + x.len()) =~= x);
    assert forall|j: int| 0 <= j < y.len() implies b.subrange(
        at + x.len(),
        at + x.len() + y.len(),
    )[j] == y[j] by {
        assert(b[at + x.len() + j] == (x + y)[x.len() + j]);
    }
    assert(b.subrange(at + x.len(), at + x.len() + y.len()) =~= y);
}

/// The length of a written string: four bytes of length, then its bytes.
pub proof fn lemma_string_len(s: Seq<char>)
    ensures
        enc_string(s).len() == 4 + encode_utf8(s).len(),
{
    lemma_le_bytes_len(encode_utf8(s).len(), 4);
}

/// The length of a written byte vector.
pub proof fn lemma_bytes_len(s: Seq<u8>)
    ensures
        enc_bytes(s).len() == 4 + s.len(),
{
    lemma_le_bytes_len(s.len(), 4);
}

proof fn lemma_string_at(b: Seq<u8>, at: int, s: Seq<char>)
    requires
        0 <= at,
        at + enc_string(s).len() <= b.len(),
        b.subrange(at, at + enc_string(s).len()) == enc_string(s),
        string_fits(s),
    ensures
        rd_string(b, at) == Some((s, at + enc_string(s).len())),
{
    lemma_string_len(s);
    lemma_rd_string_at(b, at, s);
}

proof fn lemma_bytes_at(b: Seq<u8>, at: int, s: Seq<u8>)
    requires
        0 <= at,
        at + enc_bytes(s).len() <= b.len(),
        b.subrange(at, at + enc_bytes(s).len()) == enc_bytes(s),
        fits_len(s.len()),
    ensures
        rd_bytes(b, at) == Some((s, at + enc_bytes(s).len())),
{
    lemma_bytes_len(s);
    lemma_rd_bytes_at(b, at, s);
}

proof fn lemma_byte_at(b: Seq<u8>, at: int, t: u8)
    requires
        0 <= at,
        at + 1 <= b.len(),
        b.subrange(at, at + 1) == seq![t],
    ensures
        rd_uint(b, at, 1) == Some((t as nat, at + 1)),
{
    reveal_with_fuel(le_bytes, 2);
    assert(le_bytes(t as nat, 1) =~= seq![t]);
    assert(pow256(1) == 256) by {
        reveal_with_fuel(pow256, 2);
    }
    lemma_rd_uint_at(b, at, t as nat, 1);
}

proof fn lemma_u128_at(b: Seq<u8>, at: int, x: u128)
    requires
        0 <= at,
        at + 16 <= b.len(),
        b.subrange(at, at + 16) == enc_u128(x),
    ensures
        rd_uint(b, at, 16) == Some((x as nat, at + 16)),
{
    lemma_pow256_values();
    lemma_rd_uint_at(b, at, x as nat, 16);
}

proof fn lemma_u64_at(b: Seq<u8>, at: int, x: u64)
    requires
        0 <= at,
        at + 8 <= b.len(),
        b.subrange(at, at + 8) == enc_u64(x),
    ensures
        rd_uint(b, at, 8) == Some((x as nat, at + 8)),
{
    lemma_pow256_values();
    lemma_rd_uint_at(b, at, x as nat, 8);
}

proof fn lemma_u32_at(b: Seq<u8>, at: int, x: u32)
    requires
        0 <= at,
        at + 4 <= b.len(),
        b.subrange(at, at + 4) == enc_u32(x),
    ensures
        rd_uint(b, at, 4) == Some((x as nat, at + 4)),
{
    lemma_pow256_values();
    lemma_rd_uint_at(b, at, x as nat, 4);
}

proof fn lemma_opt_u128_at(b: Seq<u8>, at: int, o: Option<u128>)
    requires
        0 <= at,
        at + enc_opt_u128(o).len() <= b.len(),
        b.subrange(at, at + enc_opt_u128(o).len()) == enc_opt_u128(o),
    ensures
        rd_opt_u128(b, at) == Some((o, at + enc_opt_u128(o).len())),
{
    match o {
        Some(x) => {
            lemma_le_bytes_len(x as nat, 16);
            lemma_cat(b, at, seq![1u8], enc_u128(x));
            lemma_byte_at(b, at, 1);
            lemma_u128_at(b, at + 1, x);
        },
        None => {
            lemma_byte_at(b, at, 0);
        },
    }
}

proof fn lemma_opt_string_at(b: Seq<u8>, at: int, o: Option<Seq<char>>)
    requires
        0 <= at,
        at + enc_opt_string(o).len() <= b.len(),
        b.subrange(at, at + enc_opt_string(o).len()) == enc_opt_string(o),
        opt_string_fits(o),
    ensures
        rd_opt_string(b, at) == Some((o, at + enc_opt_string(o).len())),
{
    match o {
        Some(s) => {
            lemma_cat(b, at, seq![1u8], enc_string(s));
            lemma_byte_at(b, at, 1);
            lemma_string_at(b, at + 1, s);
        },
        None => {
            lemma_byte_at(b, at, 0);
        },
    }
}

proof fn lemma_string_items_at(b: Seq<u8>, at: int, ss: Seq<Seq<char>>)
    requires
        0 <= at,
        at + enc_string_items(ss).len() <= b.len(),
        b.subrange(at, at + enc_string_items(ss).len()) == enc_string_items(ss),
        forall|i: int| 0 <= i < ss.len() ==> #[trigger] string_fits(ss[i]),
    ensures
        rd_string_items(b, at, ss.len()) == Some((ss, at + enc_string_items(ss).len())),
    decreases ss.len(),
{
    if ss.len() == 0 {
        assert(ss =~= Seq::<Seq<char>>::empty());
    } else {
        let front = ss.drop_last();
        lemma_cat(b, at, enc_string_items(front), enc_string(ss.last()));
        assert forall|i: int| 0 <= i < front.len() implies #[trigger] string_fits(front[i]) by {
            assert(string_fits(ss[i]));
        }
        lemma_string_items_at(b, at, front);
        assert(string_fits(ss[ss.len() - 1]));
        lemma_string_at(b, at + enc_string_items(front).len(), ss.last());
        assert(front.push(ss.last()) =~= ss);
    }
}

proof fn lemma_strings_at(b: Seq<u8>, at: int, ss: Seq<Seq<char>>)
    requires
        0 <= at,
        at + enc_strings(ss).len() <= b.len(),
        b.subrange(at, at + enc_strings(ss).len()) == enc_strings(ss),
        strings_fit(ss),
    ensures
        rd_strings(b, at) == Some((ss, at + enc_strings(ss).len())),
{
    lemma_le_bytes_len(ss.len(), 4);
    lemma_cat(b, at, le_bytes(ss.len(), 4), enc_string_items(ss));
    lemma_pow256_values();
    lemma_rd_uint_at(b, at, ss.len(), 4);
    lemma_string_items_at(b, at + 4, ss);
}

#[verifier::rlimit(40)]
proof fn lemma_chain_signature_at(b: Seq<u8>, at: int, target_chain: Seq<char>, derivation_path: Seq<char>, payload: Seq<u8>)
    requires
        0 <= at,
        at + enc_action(ActionV::ChainSignatureRequest { target_chain, derivation_path, payload }).len() <= b.len(),
        b.subrange(at, at + enc_action(ActionV::ChainSignatureRequest { target_chain, derivation_path, payload }).len()) == enc_action(ActionV::ChainSignatureRequest { target_chain, derivation_path, payload }),
        action_fits(ActionV::ChainSignatureRequest { target_chain, derivation_path, payload }),
    ensures
        read_action(b, at) == Some((ActionV::ChainSignatureRequest { target_chain, derivation_path, payload }, at + enc_action(ActionV::ChainSignatureRequest { target_chain, derivation_path, payload }).len())),
{
    let t = seq![0u8];
    let e1 = enc_string(target_chain);
    let e2 = enc_string(derivation_path);
    let e3 = enc_bytes(payload);
    lemma_cat(b, at, t + e1 + e2, e3);
    lemma_cat(b, at, t + e1, e2);
    lemma_cat(b, at, t, e1);
    lemma_byte_at(b, at, 0);
    lemma_string_at(b, at + 1, target_chain);
    lemma_string_at(b, at + 1 + e1.len(), derivation_path);
    lemma_bytes_at(b, at + 1 + e1.len() + e2.len(), payload);
}

#[verifier::rlimit(40)]
proof fn lemma_function_call_at(b: Seq<u8>, at: int, method_name: Seq<char>, args: Seq<u8>, gas: u64, deposit: u128)
    requires
        0 <= at,
        at + enc_action(ActionV::FunctionCall { method_name, args, gas, deposit }).len() <= b.len(),
        b.subrange(at, at + enc_action(ActionV::FunctionCall { method_name, args, gas, deposit }).len()) == enc_action(ActionV::FunctionCall { method_name, args, gas, deposit }),
        action_fits(ActionV::FunctionCall { method_name, args, gas, deposit }),
    ensures
        read_action(b, at) == Some((ActionV::FunctionCall { method_name, args, gas, deposit }, at + enc_action(ActionV::FunctionCall { method_name, args, gas, deposit }).len())),
{
    let t = seq![1u8];
    let e1 = enc_string(method_name);
    let e2 = enc_bytes(args);
    let e3 = enc_u64(gas);
    let e4 = enc_u128(deposit);
    lemma_le_bytes_len(gas as nat, 8);
    lemma_le_bytes_len(deposit as nat, 16);
    lemma_cat(b, at, t + e1 + e2 + e3, e4);
    lemma_cat(b, at, t + e1 + e2, e3);
    lemma_cat(b, at, t + e1, e2);
    lemma_cat(b, at, t, e1);
    lemma_byte_at(b, at, 1);
    lemma_string_at(b, at + 1, method_name);
    lemma_bytes_at(b, at + 1 + e1.len(), args);
    lemma_u64_at(b, at + 1 + e1.len() + e2.len(), gas);
    lemma_u128_at(b, at + 1 + e1.len() + e2.len() + 8, deposit);
}

#[verifier::rlimit(40)]
proof fn lemma_transfer_at(b: Seq<u8>, at: int, deposit: u128)
    requires
        0 <= at,
        at + enc_action(ActionV::Transfer { deposit }).len() <= b.len(),
        b.subrange(at, at + enc_action(ActionV::Transfer { deposit }).len()) == enc_action(ActionV::Transfer { deposit }),
        action_fits(ActionV::Transfer { deposit }),
    ensures
        read_action(b, at) == Some((ActionV::Transfer { deposit }, at + enc_action(ActionV::Transfer { deposit }).len())),
{
    lemma_le_bytes_len(deposit as nat, 16);
    lemma_cat(b, at, seq![2u8], enc_u128(deposit));
    lemma_byte_at(b, at, 2);
    lemma_u128_at(b, at + 1, deposit);
}

#[verifier::rlimit(40)]
proof fn lemma_add_key_at(b: Seq<u8>, at: int, public_key: Seq<u8>, allowance: Option<u128>, receiver_id: Seq<char>, method_names: Seq<Seq<char>>)
    requires
        0 <= at,
        at + enc_action(ActionV::AddKey { public_key, allowance, receiver_id, method_names }).len() <= b.len(),
        b.subrange(at, at + enc_action(ActionV::AddKey { public_key, allowance, receiver_id, method_names }).len()) == enc_action(ActionV::AddKey { public_key, allowance, receiver_id, method_names }),
        action_fits(ActionV::AddKey { public_key, allowance, receiver_id, method_names }),
    ensures
        read_action(b, at) == Some((ActionV::AddKey { public_key, allowance, receiver_id, method_names }, at + enc_action(ActionV::AddKey { public_key, allowance, receiver_id, method_names }).len())),
{
    let t = seq![3u8];
    let e1 = enc_bytes(public_key);
    let e2 = enc_opt_u128(allowance);
    let e3 = enc_string(receiver_id);
    let e4 = enc_strings(method_names);
    lemma_cat(b, at, t + e1 + e2 + e3, e4);
    lemma_cat(b, at, t + e1 + e2, e3);
    lemma_cat(b, at, t + e1, e2);
    lemma_cat(b, at, t, e1);
    lemma_byte_at(b, at, 3);
    lemma_bytes_at(b, at + 1, public_key);
    lemma_opt_u128_at(b, at + 1 + e1.len(), allowance);
    lemma_string_at(b, at + 1 + e1.len() + e2.len(), receiver_id);
    lemma_strings_at(b, at + 1 + e1.len() + e2.len() + e3.len(), method_names);
}

#[verifier::rlimit(40)]
proof fn lemma_ft_transfer_at(b: Seq<u8>, at: int, token: Seq<char>, receiver_id: Seq<char>, amount: u128, memo: Option<Seq<char>>)
    requires
        0 <= at,
        at + enc_action(ActionV::FtTransfer { token, receiver_id, amount, memo }).len() <= b.len(),
        b.subrange(at, at + enc_action(ActionV::FtTransfer { token, receiver_id, amount, memo }).len()) == enc_action(ActionV::FtTransfer { token, receiver_id, amount, memo }),
        action_fits(ActionV::FtTransfer { token, receiver_id, amount, memo }),
    ensures
        read_action(b, at) == Some((ActionV::FtTransfer { token, receiver_id, amount, memo }, at + enc_action(ActionV::FtTransfer { token, receiver_id, amount, memo }).len())),
{
    let t = seq![4u8];
    let e1 = enc_string(token);
    let e2 = enc_string(receiver_id);
    let e3 = enc_u128(amount);
    let e4 = enc_opt_string(memo);
    lemma_le_bytes_len(amount as nat, 16);
    lemma_cat(b, at, t + e1 + e2 + e3, e4);
    lemma_cat(b, at, t + e1 + e2, e3);
    lemma_cat(b, at, t + e1, e2);
    lemma_cat(b, at, t, e1);
    lemma_byte_at(b, at, 4);
    lemma_string_at(b, at + 1, token);
    lemma_string_at(b, at + 1 + e1.len(), receiver_id);
    lemma_u128_at(b, at + 1 + e1.len() + e2.len(), amount);
    lemma_opt_string_at(b, at + 1 + e1.len() + e2.len() + 16, memo);
}

#[verifier::rlimit(40)]
proof fn lemma_bridge_transfer_at(b: Seq<u8>, at: int, token: Seq<char>, amount: u128, destination_chain: Seq<char>, recipient: Seq<char>)
    requires
        0 <= at,
        at + enc_action(ActionV::BridgeTransfer { token, amount, destination_chain, recipient }).len() <= b.len(),
        b.subrange(at, at + enc_action(ActionV::BridgeTransfer { token, amount, destination_chain, recipient }).len()) == enc_action(ActionV::BridgeTransfer { token, amount, destination_chain, recipient }),
        action_fits(ActionV::BridgeTransfer { token, amount, destination_chain, recipient }),
    ensures
        read_action(b, at) == Some((ActionV::BridgeTransfer { token, amount, destination_chain, recipient }, at + enc_action(ActionV::BridgeTransfer { token, amount, destination_chain, recipient }).len())),
{
    let t = seq![5u8];
    let e1 = enc_string(token);
    let e2 = enc_u128(amount);
    let e3 = enc_string(destination_chain);
    let e4 = enc_string(recipient);
    lemma_le_bytes_len(amount as nat, 16);
    lemma_cat(b, at, t + e1 + e2 + e3, e4);
    lemma_cat(b, at, t + e1 + e2, e3);
    lemma_cat(b, at, t + e1, e2);
    lemma_cat(b, at, t, e1);
    lemma_byte_at(b, at, 5);
    lemma_string_at(b, at + 1, token);
    lemma_u128_at(b, at + 1 + e1.len(), amount);
    lemma_string_at(b, at + 1 + e1.len() + 16, destination_chain);
    lemma_string_at(b, at + 1 + e1.len() + 16 + e3.len(), recipient);
}

/// An action written at `at` reads back as the same action.
pub proof fn lemma_action_at(b: Seq<u8>, at: int, a: ActionV)
    requires
        0 <= at,
        at + enc_action(a).len() <= b.len(),
        b.subrange(at, at + enc_action(a).len()) == enc_action(a),
        action_fits(a),
    ensures
        read_action(b, at) == Some((a, at + enc_action(a).len())),
{
    match a {
        ActionV::ChainSignatureRequest { target_chain, derivation_path, payload } => lemma_chain_signature_at(b, at, target_chain, derivation_path, payload),
        ActionV::FunctionCall { method_name, args, gas, deposit } => lemma_function_call_at(b, at, method_name, args, gas, deposit),
        ActionV::Transfer { deposit } => lemma_transfer_at(b, at, deposit),
        ActionV::AddKey { public_key, allowance, receiver_id, method_names } => lemma_add_key_at(b, at, public_key, allowance, receiver_id, method_names),
        ActionV::FtTransfer { token, receiver_id, amount, memo } => lemma_ft_transfer_at(b, at, token, receiver_id, amount, memo),
        ActionV::BridgeTransfer { token, amount, destination_chain, recipient } => lemma_bridge_transfer_at(b, at, token, amount, destination_chain, recipient),
    }
}

proof fn lemma_actions_at(b: Seq<u8>, at: int, acts: Seq<ActionV>)
    requires
        0 <= at,
        at + enc_action_items(acts).len() <= b.len(),
        b.subrange(at, at + enc_action_items(acts).len()) == enc_action_items(acts),
        forall|i: int| 0 <= i < acts.len() ==> #[trigger] action_fits(acts[i]),
    ensures
        read_actions(b, at, acts.len()) == Some((acts, at + enc_action_items(acts).len())),
    decreases acts.len(),
{
    if acts.len() == 0 {
        assert(acts =~= Seq::<ActionV>::empty());
    } else {
        let front = acts.drop_last();
        lemma_cat(b, at, enc_action_items(front), enc_action(acts.last()));
        assert forall|i: int| 0 <= i < front.len() implies #[trigger] action_fits(front[i]) by {
            assert(action_fits(acts[i]));
        }
        lemma_actions_at(b, at, front);
        assert(action_fits(acts[acts.len() - 1]));
        lemma_action_at(b, at + enc_action_items(front).len(), acts.last());
        assert(front.push(acts.last()) =~= acts);
    }
}

/// The bytes written for a delegate action read back as the same delegate
/// action.
#[verifier::rlimit(40)]
pub proof fn lemma_delegate_round_trip(d: DelegateActionV)
    requires
        delegate_fits(d),
    ensures
        read_delegate(enc_delegate(d)) == Some(d),
{
    let b = enc_delegate(d);
    let e1 = enc_string(d.sender_id);
    let e2 = enc_string(d.receiver_id);
    let e3 = le_bytes(d.actions.len(), 4);
    let e4 = enc_action_items(d.actions);
    let e5 = enc_u64(d.nonce);
    let e6 = enc_u64(d.max_block_height);
    lemma_le_bytes_len(d.actions.len(), 4);
    lemma_le_bytes_len(d.nonce as nat, 8);
    lemma_le_bytes_len(d.max_block_height as nat, 8);
    assert(b.subrange(0, b.len() as int) =~= b);
    lemma_cat(b, 0, e1 + e2 + e3 + e4 + e5, e6);
    lemma_cat(b, 0, e1 + e2 + e3 + e4, e5);
    lemma_cat(b, 0, e1 + e2 + e3, e4);
    lemma_cat(b, 0, e1 + e2, e3);
    lemma_cat(b, 0, e1, e2);
    lemma_string_at(b, 0, d.sender_id);
    lemma_string_at(b, e1.len() as int, d.receiver_id);
    lemma_pow256_values();
    lemma_rd_uint_at(b, e1.len() as int + e2.len(), d.actions.len(), 4);
    lemma_actions_at(b, e1.len() as int + e2.len() + 4, d.actions);
    lemma_u64_at(b, e1.len() as int + e2.len() + 4 + e4.len(), d.nonce);
    lemma_u64_at(b, e1.len() as int + e2.len() + 4 + e4.len() + 8, d.max_block_height);
}

/// The bytes written for a bridge payload read back, field by field, as
/// the token, amount, destination chain, recipient, sender and nonce.
#[verifier::rlimit(40)]
pub proof fn lemma_bridge_payload_round_trip(
    token: Seq<char>,
    amount: u128,
    destination_chain: Seq<char>,
    recipient: Seq<char>,
    sender: Seq<char>,
    nonce: u64,
)
    requires
        string_fits(token),
        string_fits(destination_chain),
        string_fits(recipient),
        string_fits(sender),
    ensures
        read_bridge_payload(
            enc_bridge_payload(token, amount, destination_chain, recipient, sender, nonce),
        ) == Some((token, amount as nat, destination_chain, recipient, sender, nonce as nat)),
{
    reveal(read_bridge_payload);
    let b = enc_bridge_payload(token, amount, destination_chain, recipient, sender, nonce);
    let e1 = enc_string(token);
    let e2 = enc_u128(amount);
    let e3 = enc_string(destination_chain);
    let e4 = enc_string(recipient);
    let e5 = enc_string(sender);
    let e6 = enc_u64(nonce);
    lemma_le_bytes_len(amount as nat, 16);
    lemma_le_bytes_len(nonce as nat, 8);
    assert(b.subrange(0, b.len() as int) =~= b);
    lemma_cat(b, 0, e1 + e2 + e3 + e4 + e5, e6);
    lemma_cat(b, 0, e1 + e2 + e3 + e4, e5);
    lemma_cat(b, 0, e1 + e2 + e3, e4);
    lemma_cat(b, 0, e1 + e2, e3);
    lemma_cat(b, 0, e1, e2);
    lemma_string_at(b, 0, token);
    lemma_u128_at(b, e1.len() as int, amount);
    lemma_string_at(b, e1.len() as int + 16, destination_chain);
    lemma_string_at(b, e1.len() as int + 16 + e3.len(), recipient);
    lemma_string_at(b, e1.len() as int + 16 + e3.len() + e4.len(), sender);
    lemma_u64_at(b, e1.len() as int + 16 + e3.len() + e4.len() + e5.len(), nonce);
}

/// The bytes written for a signing request read back as its payload, path,
/// key version and request id.
pub proof fn lemma_sign_request_round_trip(
    payload: Seq<u8>,
    path: Seq<char>,
    key_version: u32,
    request_id: u64,
)
    requires
        fits_len(payload.len()),
        string_fits(path),
    ensures
        read_sign_request(enc_sign_request(payload, path, key_version, request_id)) == Some(
            (payload, path, key_version as nat, request_id as nat),
        ),
{
    reveal(read_sign_request);
    let b = enc_sign_request(payload, path, key_version, request_id);
    let e1 = enc_bytes(payload);
    let e2 = enc_string(path);
    let e3 = enc_u32(key_version);
    let e4 = enc_u64(request_id);
    lemma_le_bytes_len(key_version as nat, 4);
    lemma_le_bytes_len(request_id as nat, 8);
    assert(b.subrange(0, b.len() as int) =~= b);
    lemma_cat(b, 0, e1 + e2 + e3, e4);
    lemma_cat(b, 0, e1 + e2, e3);
    lemma_cat(b, 0, e1, e2);
    lemma_bytes_at(b, 0, payload);
    lemma_string_at(b, e1.len() as int, path);
    lemma_u32_at(b, e1.len() as int + e2.len(), key_version);
    lemma_u64_at(b, e1.len() as int + e2.len() + 4, request_id);
}

/// The bytes written for an (account id, public key) pair read back as the
/// account id and then the key, filling the bytes.
pub proof fn lemma_account_and_key_round_trip(account: Seq<char>, key: Seq<u8>)
    requires
        string_fits(account),
        fits_len(key.len()),
    ensures
        rd_string(enc_account_and_key(account, key), 0) == Some(
            (account, enc_string(account).len() as int),
        ),
        rd_bytes(enc_account_and_key(account, key), enc_string(account).len() as int) == Some(
            (key, enc_account_and_key(account, key).len() as int),
        ),
{
    let b = enc_account_and_key(account, key);
    let e1 = enc_string(account);
    let e2 = enc_bytes(key);
    assert(b.subrange(0, b.len() as int) =~= b);
    lemma_cat(b, 0, e1, e2);
    lemma_string_at(b, 0, account);
    lemma_bytes_at(b, e1.len() as int, key);
}

} // verus!
