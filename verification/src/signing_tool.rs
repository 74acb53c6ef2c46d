//! The bytes the command-line signing tool writes for testing the relayer: a
//! signed delegate action holding one transfer of 1 NEAR, in the tool's own
//! Borsh layout (its action enum knows transfers only, so a transfer is
//! variant 0, and its signed action ends with the fee action, with no
//! multi-signature field).
use vstd::prelude::*;
use crate::borsh::{
    enc_bytes, enc_string, enc_u128, enc_u32, enc_u64, fits_len, put_bytes, put_string,
    put_u128, put_u32, put_u64, put_u8, put_raw, string_fits,
};
use crate::crypto::{
    ed25519_key_text, ed25519_secret_key, ed25519_sign, ed25519_signature, parse_secret_key,
    public_key_of, public_key_text, sdk_key_of_text, sdk_public_key,
};
use crate::text::{account_id_rule, base64_encode, base64_standard, validate_account_id};
use crate::types::PublicKey;

verus! {

/// The deposit of the tool's transfer: 1 NEAR.
pub const TOOL_TRANSFER_DEPOSIT: u128 = 1_000_000_000_000_000_000_000_000;

/// The tool's delegate action: sender, receiver, one transfer of 1 NEAR,
/// the nonce and the last valid block height.
pub open spec fn tool_delegate_bytes(
    sender: Seq<char>,
    receiver: Seq<char>,
    nonce: u64,
    max_block_height: u64,
) -> Seq<u8> {
    enc_string(sender) + enc_string(receiver) + enc_u32(1) + seq![0u8] + enc_u128(
        TOOL_TRANSFER_DEPOSIT,
    ) + enc_u64(nonce) + enc_u64(max_block_height)
}

/// The tool's signed delegate action: the delegate action's bytes, the
/// signature, the key, session nonce 0, the ed25519 scheme and no fee action.
pub open spec fn tool_signed_bytes(delegate: Seq<u8>, signature: Seq<u8>, key: Seq<u8>) -> Seq<u8> {
    delegate + enc_bytes(signature) + enc_bytes(key) + enc_u64(0) + seq![0u8, 0u8]
}

/// Writes the tool's delegate action, or `None` when an account id is too
/// long to write.
pub fn encode_tool_delegate(
    sender: &String,
    receiver: &String,
    nonce: u64,
    max_block_height: u64,
) -> (r: Option<Vec<u8>>)
    ensures
        r is Some <==> string_fits(sender@) && string_fits(receiver@),
        r matches Some(v) ==> v@ == tool_delegate_bytes(sender@, receiver@, nonce, max_block_height),
{
    let mut out: Vec<u8> = Vec::new();
    if !put_string(&mut out, sender) {
        return None;
    }
    if !put_string(&mut out, receiver) {
        return None;
    }
    put_u32(&mut out, 1);
    put_u8(&mut out, 0);
    put_u128(&mut out, TOOL_TRANSFER_DEPOSIT);
    put_u64(&mut out, nonce);
    put_u64(&mut out, max_block_height);
    assert(out@ =~= tool_delegate_bytes(sender@, receiver@, nonce, max_block_height));
    Some(out)
}

/// Writes the tool's signed delegate action around the delegate action's
/// bytes, or `None` when the signature or key is too long to write.
pub fn encode_tool_signed(delegate: &[u8], signature: &[u8], key: &PublicKey) -> (r: Option<Vec<u8>>)
    ensures
        r is Some <==> fits_len(signature@.len()) && fits_len(key@.len()),
        r matches Some(v) ==> v@ == tool_signed_bytes(delegate@, signature@, key@),
{
    let mut out: Vec<u8> = Vec::new();
    put_raw(&mut out, delegate);
    if !put_bytes(&mut out, signature) {
        return None;
    }
    if !put_bytes(&mut out, key.data.as_slice()) {
        return None;
    }
    put_u64(&mut out, 0);
    put_u8(&mut out, 0);
    put_u8(&mut out, 0);
    assert(out@ =~= tool_signed_bytes(delegate@, signature@, key@));
    Some(out)
}

/// What the tool prints for its arguments: the base64 of the signed
/// delegate action and the text of the public key. The accounts must be
/// valid account ids and the secret key an `ed25519:` key; the public key is
/// the keypair's public half, written as text and read back as a NEAR SDK
/// key; the keypair signs the delegate action's bytes. `None` when any step
/// fails (a secp256k1 key, or a keypair whose halves disagree, on which the
/// signing library would panic, included).
pub open spec fn tool_output(
    sender: Seq<char>,
    receiver: Seq<char>,
    nonce: u64,
    max_block_height: u64,
    private_key: Seq<char>,
) -> Option<(Seq<char>, Seq<char>)> {
    if !(account_id_rule(sender) && account_id_rule(receiver)) {
        None
    } else {
        match ed25519_secret_key(private_key) {
            None => None,
            Some(keypair) => {
                let public_text = ed25519_key_text(keypair.subrange(32, 64));
                match sdk_key_of_text(public_text) {
                    None => None,
                    Some(key) => {
                        let delegate = tool_delegate_bytes(sender, receiver, nonce, max_block_height);
                        match ed25519_signature(keypair, delegate) {
                            None => None,
                            Some(signature) => if fits_len(key.len()) {
                                Some(
                                    (
                                        base64_standard(tool_signed_bytes(delegate, signature, key)),
                                        public_text,
                                    ),
                                )
                            } else {
                                None
                            },
                        }
                    },
                }
            },
        }
    }
}

/// The tool's computation: from the accounts, nonce, block height and
/// secret key to the base64 of the signed delegate action and the text of
/// the public key.
pub fn signing_tool_output(
    sender: &String,
    receiver: &String,
    nonce: u64,
    max_block_height: u64,
    private_key: &String,
) -> (r: Option<(String, String)>)
    ensures
        match tool_output(sender@, receiver@, nonce, max_block_height, private_key@) {
            None => r is None,
            Some((text, key)) => r matches Some((b64, pk)) && b64@ == text && pk@ == key,
        },
{
    if !validate_account_id(sender.as_str()) || !validate_account_id(receiver.as_str()) {
        return None;
    }
    let keypair = match parse_secret_key(private_key.as_str()) {
        Some(k) => k,
        None => {
            return None;
        },
    };
    let public = public_key_of(keypair.as_slice());
    let public_text = public_key_text(public.as_slice());
    let key = match sdk_public_key(public_text.as_str()) {
        Some(k) => k,
        None => {
            return None;
        },
    };
    let delegate = match encode_tool_delegate(sender, receiver, nonce, max_block_height) {
        Some(d) => d,
        None => {
            return None;
        },
    };
    let signature = match ed25519_sign(keypair.as_slice(), delegate.as_slice()) {
        Some(s) => s,
        None => {
            return None;
        },
    };
    let signed = match encode_tool_signed(delegate.as_slice(), signature.as_slice(), &PublicKey { data: key }) {
        Some(b) => b,
        None => {
            return None;
        },
    };
    Some((base64_encode(signed.as_slice()), public_text))
}

} // verus!
