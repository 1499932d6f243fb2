use base58::{FromBase58, ToBase58};
use solana_sdk::pubkey::Pubkey;
use solana_sdk::signature::{Keypair, Signature};
use solana_sdk::signer::Signer;
use std::str::FromStr;
use vstd::prelude::*;
use vstd::string::StrSliceExecFns;

verus! {

/// Number of bytes in an account address.
pub const ADDRESS_LEN: usize = 32;

/// Number of bytes in an ed25519 signature.
pub const SIGNATURE_LEN: usize = 64;

/// Errors of the key and signature helpers.
#[derive(Debug, Clone, PartialEq, Eq)]
pub enum SolanaError {
    InvalidBase58,
    InvalidPubkey(String),
    InvalidSignature,
    MissingField(String),
    InvalidAmount(String),
}

/// The bytes that a base58 text spells, or `None` where it is not base58.
pub uninterp spec fn base58_decoded(s: Seq<char>) -> Option<Seq<u8>>;

/// The base58 text of some bytes.
pub uninterp spec fn base58_text(b: Seq<u8>) -> Seq<char>;

/// The 32-byte address that a text names, or `None` where it names none.
pub uninterp spec fn address_parsed(s: Seq<char>) -> Option<Seq<u8>>;

/// The text form of an address.
pub uninterp spec fn address_text(b: Seq<u8>) -> Seq<char>;

/// The message of the error that parsing `s` as an address gives.
pub uninterp spec fn address_parse_error(s: Seq<char>) -> Seq<char>;


/// The ed25519 public key that a 32-byte secret seed derives.
pub uninterp spec fn ed25519_public(seed: Seq<u8>) -> Seq<u8>;

/// Whether 64 bytes form a keypair: a secret seed, then the public key that
/// it derives.
pub open spec fn keypair_accepts(b: Seq<u8>) -> bool {
    b.len() == 64 && b.subrange(32, 64) == ed25519_public(b.subrange(0, 32))
}

/// The ed25519 signature of `msg` under the 32-byte secret seed `seed`.
pub uninterp spec fn ed25519_signature(seed: Seq<u8>, msg: Seq<u8>) -> Seq<u8>;

/// Whether `sig` is a valid ed25519 signature of `msg` under public key `pk`.
pub uninterp spec fn signature_valid(sig: Seq<u8>, pk: Seq<u8>, msg: Seq<u8>) -> bool;

/// Longest text that base58 decoding takes here. The decoder works in a
/// 132-byte buffer and fails (by a panic) on longer text that begins with
/// many `1`s; no 64-byte value has a longer text.
pub const BASE58_MAX_LEN: usize = 132;

/// Relies on base58's `FromBase58::from_base58`: decodes a base58 text.
#[verifier::external_body]
pub(crate) fn base58_decode(s: &str) -> (r: Option<Vec<u8>>)
    requires
        s@.len() <= BASE58_MAX_LEN,
    ensures
        r matches Some(b) ==> base58_decoded(s@) == Some(b@),
        r is None ==> base58_decoded(s@) is None,
{
    s.from_base58().ok()
}

/// Relies on base58's `ToBase58::to_base58`: encodes bytes as base58 text.
#[verifier::external_body]
pub(crate) fn base58_encode(b: &[u8]) -> (r: String)
    ensures
        r@ == base58_text(b@),
        b@.len() <= SIGNATURE_LEN ==> r@.len() <= BASE58_MAX_LEN && base58_decoded(r@) == Some(b@),
        b@.len() > 0 ==> r@.len() > 0,
{
    b.to_base58()
}

/// Relies on `Pubkey::from_str`: parses the base58 text of a 32-byte address;
/// the error is carried as its message.
#[verifier::external_body]
pub(crate) fn parse_address(s: &str) -> (r: Result<[u8; 32], String>)
    ensures
        r matches Ok(b) ==> address_parsed(s@) == Some(b@),
        r matches Err(m) ==> address_parsed(s@) is None && m@ == address_parse_error(s@),
{
    Pubkey::from_str(s).map(|p| p.to_bytes()).map_err(|e| e.to_string())
}

/// Relies on `Pubkey`'s `to_string`: the base58 text of an address.
#[verifier::external_body]
pub(crate) fn address_to_string(b: [u8; 32]) -> (r: String)
    ensures
        r@ == address_text(b@),
        address_parsed(r@) == Some(b@),
        r@.len() > 0,
{
    Pubkey::new_from_array(b).to_string()
}

/// Relies on `Keypair::try_from(&[u8])`: accepts exactly 64 bytes whose second
/// half is the public key that the first half, the secret seed, derives.
#[verifier::external_body]
pub(crate) fn keypair_check(b: &[u8]) -> (r: bool)
    ensures
        r == (b@.len() == 64 && b@.subrange(32, 64) == ed25519_public(b@.subrange(0, 32))),
{
    Keypair::try_from(b).is_ok()
}

/// Relies on `Keypair::new` and `Keypair::to_bytes`: a keypair from a random
/// seed, as the seed followed by the public key that it derives.
#[verifier::external_body]
pub(crate) fn random_keypair_bytes() -> (r: [u8; 64])
    ensures
        keypair_accepts(r@),
{
    Keypair::new().to_bytes()
}

/// Relies on `Keypair::new_from_array` and `Signer::sign_message`: the
/// deterministic ed25519 signature of the message under the secret seed.
#[verifier::external_body]
pub(crate) fn ed25519_sign(seed: [u8; 32], message: &[u8]) -> (r: [u8; 64])
    ensures
        r@ == ed25519_signature(seed@, message@),
{
    Keypair::new_from_array(seed).sign_message(message).into()
}

/// Relies on `Signature::verify`: checks an ed25519 signature of a message
/// against a public key.
#[verifier::external_body]
pub(crate) fn signature_verify(sig: [u8; 64], pk: &[u8], message: &[u8]) -> (r: bool)
    ensures
        r == signature_valid(sig@, pk@, message@),
{
    Signature::from(sig).verify(pk, message)
}

/// The 64 bytes of a keypair: the secret seed, then the public key that it
/// derives.
pub struct KeypairBytes {
    bytes: [u8; 64],
}

impl View for KeypairBytes {
    type V = Seq<u8>;

    closed spec fn view(&self) -> Seq<u8> {
        self.bytes@
    }
}

/// The first 32 bytes of a keypair: its secret seed.
pub open spec fn seed_of(kp: Seq<u8>) -> Seq<u8> {
    kp.subrange(0, 32)
}

/// The last 32 bytes of a keypair: its public key.
pub open spec fn public_of(kp: Seq<u8>) -> Seq<u8> {
    kp.subrange(32, 64)
}

/// The 32 bytes of `b` from `start` on.
fn half(b: &[u8; 64], start: usize) -> (r: [u8; 32])
    requires
        start == 0 || start == 32,
    ensures
        r@ == b@.subrange(start as int, start + 32),
{
    let mut r: [u8; 32] = [0u8; 32];
    let mut i: usize = 0;
    while i < 32
        invariant
            i <= 32,
            r@.len() == 32,
            start == 0 || start == 32,
            forall|j: int| 0 <= j < i ==> r@[j] == b@[start + j],
        decreases 32 - i,
    {
        r[i] = b[start + i];
        i = i + 1;
    }
    assert(r@ =~= b@.subrange(start as int, start + 32));
    r
}

impl KeypairBytes {
    #[verifier::type_invariant]
    spec fn inv(self) -> bool {
        keypair_accepts(self.bytes@)
    }

    /// The keypair that 64 bytes form, or `None` where they form none.
    pub fn from_bytes(b: &[u8]) -> (r: Option<KeypairBytes>)
        ensures
            r is Some <==> keypair_accepts(b@),
            r matches Some(k) ==> k@ == b@,
    {
        if !keypair_check(b) {
            return None;
        }
        let mut bytes: [u8; 64] = [0u8; 64];
        let mut i: usize = 0;
        while i < 64
            invariant
                i <= 64,
                b@.len() == 64,
                bytes@.len() == 64,
                forall|j: int| 0 <= j < i ==> bytes@[j] == b@[j],
            decreases 64 - i,
        {
            bytes[i] = b[i];
            i = i + 1;
        }
        assert(bytes@ =~= b@);
        Some(KeypairBytes { bytes })
    }

    /// A fresh keypair from a random seed.
    pub fn generate() -> (r: KeypairBytes) {
        let bytes = random_keypair_bytes();
        KeypairBytes { bytes }
    }

    /// The 64 bytes.
    pub fn to_bytes(&self) -> (r: [u8; 64])
        ensures
            r@ == self@,
    {
        self.bytes
    }

    /// The public key: the last 32 bytes.
    pub fn pubkey(&self) -> (r: [u8; 32])
        ensures
            r@ == public_of(self@),
    {
        half(&self.bytes, 32)
    }

    /// The secret seed: the first 32 bytes.
    fn seed(&self) -> (r: [u8; 32])
        ensures
            r@ == seed_of(self@),
    {
        half(&self.bytes, 0)
    }
}

/// `s` is the base58 text of the 64 bytes of a keypair.
pub open spec fn keypair_text(s: Seq<char>) -> bool {
    s.len() <= BASE58_MAX_LEN && (base58_decoded(s) matches Some(b) && keypair_accepts(b))
}

/// Reads a keypair from the base58 text of its 64 bytes.
pub fn decode_keypair(secret: &str) -> (r: Result<KeypairBytes, SolanaError>)
    ensures
        r is Ok <==> keypair_text(secret@),
        r matches Ok(k) ==> base58_decoded(secret@) == Some(k@),
        r matches Err(e) ==> e == SolanaError::InvalidBase58,
{
    if secret.unicode_len() > BASE58_MAX_LEN {
        return Err(SolanaError::InvalidBase58);
    }
    match base58_decode(secret) {
        None => Err(SolanaError::InvalidBase58),
        Some(bytes) => match KeypairBytes::from_bytes(bytes.as_slice()) {
            None => Err(SolanaError::InvalidBase58),
            Some(k) => Ok(k),
        },
    }
}

/// The base58 text of a keypair's 64 bytes, which reads back as the same keypair.
pub fn encode_keypair(keypair: &KeypairBytes) -> (r: String)
    ensures
        r@ == base58_text(keypair@),
        keypair_text(r@),
        base58_decoded(r@) == Some(keypair@),
{
    proof {
        use_type_invariant(keypair);
    }
    let bytes = keypair.to_bytes();
    base58_encode(&bytes)
}

/// Parses the text of an address; a failure carries the parser's message.
pub fn decode_pubkey(pubkey: &str) -> (r: Result<[u8; 32], SolanaError>)
    ensures
        r matches Ok(b) ==> address_parsed(pubkey@) == Some(b@),
        r matches Err(e) ==> address_parsed(pubkey@) is None
                && (e matches SolanaError::InvalidPubkey(m) && m@ == address_parse_error(pubkey@)),
{
    match parse_address(pubkey) {
        Ok(b) => Ok(b),
        Err(msg) => Err(SolanaError::InvalidPubkey(msg)),
    }
}

/// Signs a message with a keypair's seed and gives the signature as base58 text.
pub fn sign_message(message: &[u8], keypair: &KeypairBytes) -> (r: String)
    ensures
        r@ == base58_text(ed25519_signature(seed_of(keypair@), message@)),
        r@.len() > 0,
{
    proof {
        use_type_invariant(keypair);
    }
    let sig = ed25519_sign(keypair.seed(), message);
    base58_encode(&sig)
}

/// Checks a base58 signature of `message` against `pubkey`. The signature text
/// must spell exactly 64 bytes; otherwise the result is `InvalidSignature`.
pub fn verify_signature(message: &[u8], signature_str: &str, pubkey: &[u8; 32]) -> (r: Result<
    bool,
    SolanaError,
>)
    ensures
        r == verification(message@, signature_str@, pubkey@),
{
    if signature_str.unicode_len() > BASE58_MAX_LEN {
        return Err(SolanaError::InvalidSignature);
    }
    match base58_decode(signature_str) {
        None => Err(SolanaError::InvalidSignature),
        Some(bytes) => {
            if bytes.len() != SIGNATURE_LEN {
                return Err(SolanaError::InvalidSignature);
            }
            let mut sig: [u8; 64] = [0u8; 64];
            let mut i: usize = 0;
            while i < SIGNATURE_LEN
                invariant
                    bytes@.len() == SIGNATURE_LEN,
                    i <= SIGNATURE_LEN,
                    sig@.len() == SIGNATURE_LEN,
                    forall|j: int| 0 <= j < i ==> sig@[j] == bytes@[j],
                decreases SIGNATURE_LEN - i,
            {
                sig[i] = bytes[i];
                i = i + 1;
            }
            assert(sig@ =~= bytes@);
            Ok(signature_verify(sig, pubkey, message))
        },
    }
}

/// What checking signature text `s` of `msg` under public key `pk` gives.
/// Text longer than `BASE58_MAX_LEN` is refused unread: the text of any 64
/// bytes is shorter (see `base58_encode`), so no signature is lost.
pub open spec fn verification(msg: Seq<u8>, s: Seq<char>, pk: Seq<u8>) -> Result<bool, SolanaError> {
    if s.len() > BASE58_MAX_LEN {
        Err(SolanaError::InvalidSignature)
    } else {
        match base58_decoded(s) {
        Some(b) => if b.len() == SIGNATURE_LEN {
            Ok(signature_valid(b, pk, msg))
        } else {
            Err(SolanaError::InvalidSignature)
        },
        None => Err(SolanaError::InvalidSignature),
        }
    }
}

} // verus!
