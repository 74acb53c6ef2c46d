use vstd::prelude::*;

verus! {

/// A NEAR public key as the SDK stores it: the curve tag byte (0 for
/// ed25519, 1 for secp256k1, 2 for ML-DSA-65) followed by the key material.
#[derive(Debug)]
pub struct PublicKey {
    pub data: Vec<u8>,
}

impl View for PublicKey {
    type V = Seq<u8>;

    open spec fn view(&self) -> Seq<u8> {
        self.data@
    }
}

/// Length of the key material that follows a curve tag, as the SDK fixes it.
pub open spec fn curve_data_len(tag: u8) -> int {
    if tag == 0 {
        32
    } else if tag == 1 {
        64
    } else if tag == 2 {
        1952
    } else {
        -1
    }
}

/// The bytes the SDK accepts as a public key: a known curve tag followed by
/// exactly as many bytes as that curve's keys have.
pub open spec fn public_key_bytes_valid(data: Seq<u8>) -> bool {
    &&& data.len() >= 1
    &&& curve_data_len(data[0]) >= 0
    &&& data.len() == curve_data_len(data[0]) + 1
}

/// An ed25519 key: 33 bytes whose tag byte is 0.
pub open spec fn is_ed25519_key(data: Seq<u8>) -> bool {
    data.len() == 33 && data[0] == 0
}

impl PublicKey {
    /// The key held in `data`, when the bytes are a valid key (the SDK's
    /// `TryFrom<Vec<u8>>`).
    pub fn from_bytes(data: Vec<u8>) -> (r: Option<PublicKey>)
        ensures
            r is Some <==> public_key_bytes_valid(data@),
            r matches Some(k) ==> k@ == data@,
    {
        if data.len() == 0 {
            return None;
        }
        let tag = data[0];
        let expected: usize = if tag == 0 {
            32
        } else if tag == 1 {
            64
        } else if tag == 2 {
            1952
        } else {
            return None;
        };
        if data.len() - 1 != expected {
            return None;
        }
        Some(PublicKey { data })
    }

    pub fn copy(&self) -> (r: PublicKey)
        ensures
            r@ == self@,
    {
        PublicKey { data: copy_bytes(&self.data) }
    }
}

/// A fresh vector holding the same bytes.
pub fn copy_bytes(v: &Vec<u8>) -> (r: Vec<u8>)
    ensures
        r@ == v@,
{
    let mut r: Vec<u8> = Vec::new();
    let mut i: usize = 0;
    while i < v.len()
        invariant
            i <= v.len(),
            r@ == v@.take(i as int),
        decreases v.len() - i,
    {
        r.push(v[i]);
        i = i + 1;
        assert(r@ =~= v@.take(i as int));
    }
    assert(r@ =~= v@);
    r
}

/// Whether two byte strings are equal.
pub fn bytes_equal(a: &[u8], b: &[u8]) -> (r: bool)
    ensures
        r == (a@ == b@),
{
    if a.len() != b.len() {
        return false;
    }
    let mut i: usize = 0;
    while i < a.len()
        invariant
            i <= a@.len(),
            a@.len() == b@.len(),
            a@.take(i as int) == b@.take(i as int),
        decreases a@.len() - i,
    {
        if a[i] != b[i] {
            assert(a@[i as int] != b@[i as int]);
            return false;
        }
        assert(a@.take(i + 1) =~= a@.take(i as int).push(a@[i as int]));
        assert(b@.take(i + 1) =~= b@.take(i as int).push(b@[i as int]));
        i = i + 1;
    }
    assert(a@ =~= a@.take(i as int));
    assert(b@ =~= b@.take(i as int));
    true
}

/// The bytes of `v` from `start` up to (not including) `end`.
pub fn sub_bytes(v: &Vec<u8>, start: usize, end: usize) -> (r: Vec<u8>)
    requires
        start <= end <= v@.len(),
    ensures
        r@ == v@.subrange(start as int, end as int),
{
    let mut r: Vec<u8> = Vec::new();
    let mut i: usize = start;
    while i < end
        invariant
            start <= i <= end,
            end <= v@.len(),
            r@ == v@.subrange(start as int, i as int),
        decreases end - i,
    {
        r.push(v[i]);
        i = i + 1;
        assert(r@ =~= v@.subrange(start as int, i as int));
    }
    r
}

/// One action of a delegated transaction. Amounts are yoctoNEAR, gas is in
/// gas units, account ids are their text.
#[derive(Debug)]
pub enum Action {
    ChainSignatureRequest { target_chain: String, derivation_path: String, payload: Vec<u8> },
    FunctionCall { method_name: String, args: Vec<u8>, gas: u64, deposit: u128 },
    Transfer { deposit: u128 },
    AddKey {
        public_key: PublicKey,
        allowance: Option<u128>,
        receiver_id: String,
        method_names: Vec<String>,
    },
    FtTransfer { token: String, receiver_id: String, amount: u128, memo: Option<String> },
    BridgeTransfer { token: String, amount: u128, destination_chain: String, recipient: String },
}

/// The abstract value of an [`Action`].
pub enum ActionV {
    ChainSignatureRequest { target_chain: Seq<char>, derivation_path: Seq<char>, payload: Seq<u8> },
    FunctionCall { method_name: Seq<char>, args: Seq<u8>, gas: u64, deposit: u128 },
    Transfer { deposit: u128 },
    AddKey {
        public_key: Seq<u8>,
        allowance: Option<u128>,
        receiver_id: Seq<char>,
        method_names: Seq<Seq<char>>,
    },
    FtTransfer { token: Seq<char>, receiver_id: Seq<char>, amount: u128, memo: Option<Seq<char>> },
    BridgeTransfer {
        token: Seq<char>,
        amount: u128,
        destination_chain: Seq<char>,
        recipient: Seq<char>,
    },
}

pub open spec fn opt_str_view(o: Option<String>) -> Option<Seq<char>> {
    match o {
        Some(s) => Some(s@),
        None => None,
    }
}

pub open spec fn strings_view(v: Seq<String>) -> Seq<Seq<char>> {
    v.map_values(|s: String| s@)
}

impl View for Action {
    type V = ActionV;

    open spec fn view(&self) -> ActionV {
        match self {
            Action::ChainSignatureRequest { target_chain, derivation_path, payload } =>
                ActionV::ChainSignatureRequest {
                    target_chain: target_chain@,
                    derivation_path: derivation_path@,
                    payload: payload@,
                },
            Action::FunctionCall { method_name, args, gas, deposit } => ActionV::FunctionCall {
                method_name: method_name@,
                args: args@,
                gas: *gas,
                deposit: *deposit,
            },
            Action::Transfer { deposit } => ActionV::Transfer { deposit: *deposit },
            Action::AddKey { public_key, allowance, receiver_id, method_names } => ActionV::AddKey {
                public_key: public_key@,
                allowance: *allowance,
                receiver_id: receiver_id@,
                method_names: strings_view(method_names@),
            },
            Action::FtTransfer { token, receiver_id, amount, memo } => ActionV::FtTransfer {
                token: token@,
                receiver_id: receiver_id@,
                amount: *amount,
                memo: opt_str_view(*memo),
            },
            Action::BridgeTransfer { token, amount, destination_chain, recipient } =>
                ActionV::BridgeTransfer {
                    token: token@,
                    amount: *amount,
                    destination_chain: destination_chain@,
                    recipient: recipient@,
                },
        }
    }
}

/// The name of an action's kind, as the relayer reports it in events.
pub open spec fn action_kind_name(a: ActionV) -> Seq<char> {
    match a {
        ActionV::ChainSignatureRequest { .. } => "ChainSignatureRequest"@,
        ActionV::FunctionCall { .. } => "FunctionCall"@,
        ActionV::Transfer { .. } => "Transfer"@,
        ActionV::AddKey { .. } => "AddKey"@,
        ActionV::FtTransfer { .. } => "FtTransfer"@,
        ActionV::BridgeTransfer { .. } => "BridgeTransfer"@,
    }
}

impl Action {
    /// The name of this action's kind.
    pub fn kind_name(&self) -> (r: &'static str)
        ensures
            r@ == action_kind_name(self@),
    {
        match self {
            Action::ChainSignatureRequest { .. } => "ChainSignatureRequest",
            Action::FunctionCall { .. } => "FunctionCall",
            Action::Transfer { .. } => "Transfer",
            Action::AddKey { .. } => "AddKey",
            Action::FtTransfer { .. } => "FtTransfer",
            Action::BridgeTransfer { .. } => "BridgeTransfer",
        }
    }
}

/// The part of a meta-transaction that its sender signs.
#[derive(Debug)]
pub struct DelegateAction {
    pub sender_id: String,
    pub receiver_id: String,
    pub actions: Vec<Action>,
    pub nonce: u64,
    pub max_block_height: u64,
}

pub struct DelegateActionV {
    pub sender_id: Seq<char>,
    pub receiver_id: Seq<char>,
    pub actions: Seq<ActionV>,
    pub nonce: u64,
    pub max_block_height: u64,
}

pub open spec fn actions_view(v: Seq<Action>) -> Seq<ActionV> {
    v.map_values(|a: Action| a@)
}

impl View for DelegateAction {
    type V = DelegateActionV;

    open spec fn view(&self) -> DelegateActionV {
        DelegateActionV {
            sender_id: self.sender_id@,
            receiver_id: self.receiver_id@,
            actions: actions_view(self.actions@),
            nonce: self.nonce,
            max_block_height: self.max_block_height,
        }
    }
}

/// The signature schemes a meta-transaction can be signed with.
#[derive(Clone, Copy, Debug, PartialEq, Eq, Structural)]
pub enum SignatureScheme {
    Ed25519,
}

/// A delegate action together with its signature and the key that made it.
#[derive(Debug)]
pub struct SignedDelegateAction {
    pub delegate_action: DelegateAction,
    pub signature: Vec<u8>,
    pub public_key: PublicKey,
    pub session_nonce: u64,
    pub scheme: SignatureScheme,
    pub fee_action: Option<Action>,
    pub multi_signatures: Option<Vec<Vec<u8>>>,
}

pub struct SignedDelegateActionV {
    pub delegate_action: DelegateActionV,
    pub signature: Seq<u8>,
    pub public_key: Seq<u8>,
    pub session_nonce: u64,
    pub scheme: SignatureScheme,
    pub fee_action: Option<ActionV>,
    pub multi_signatures: Option<Seq<Seq<u8>>>,
}

pub open spec fn opt_action_view(o: Option<Action>) -> Option<ActionV> {
    match o {
        Some(a) => Some(a@),
        None => None,
    }
}

pub open spec fn byte_lists_view(v: Seq<Vec<u8>>) -> Seq<Seq<u8>> {
    v.map_values(|b: Vec<u8>| b@)
}

pub open spec fn opt_byte_lists_view(o: Option<Vec<Vec<u8>>>) -> Option<Seq<Seq<u8>>> {
    match o {
        Some(v) => Some(byte_lists_view(v@)),
        None => None,
    }
}

impl View for SignedDelegateAction {
    type V = SignedDelegateActionV;

    open spec fn view(&self) -> SignedDelegateActionV {
        SignedDelegateActionV {
            delegate_action: self.delegate_action@,
            signature: self.signature@,
            public_key: self.public_key@,
            session_nonce: self.session_nonce,
            scheme: self.scheme,
            fee_action: opt_action_view(self.fee_action),
            multi_signatures: opt_byte_lists_view(self.multi_signatures),
        }
    }
}

/// A fresh copy of an optional list of byte strings.
pub fn copy_byte_lists(o: &Option<Vec<Vec<u8>>>) -> (r: Option<Vec<Vec<u8>>>)
    ensures
        opt_byte_lists_view(r) == opt_byte_lists_view(*o),
{
    match o {
        None => None,
        Some(v) => {
            let mut r: Vec<Vec<u8>> = Vec::new();
            let mut i: usize = 0;
            while i < v.len()
                invariant
                    i <= v@.len(),
                    r@.len() == i,
                    forall|j: int| 0 <= j < i ==> (#[trigger] r@[j])@ == v@[j]@,
                decreases v@.len() - i,
            {
                r.push(copy_bytes(&v[i]));
                i = i + 1;
            }
            assert(byte_lists_view(r@) =~= byte_lists_view(v@));
            Some(r)
        },
    }
}

} // verus!
