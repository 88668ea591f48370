//! X25519 keys in the base64 form that WireGuard tools print and read.

use base64::Engine;
use crate::error::{AppError, AppResult};
use crate::text::{decimal_text, trim};
use vstd::prelude::*;

verus! {

/// The bytes of a key.
pub const KEY_BYTES: usize = 32;

/// What `STANDARD.decode` of the `base64` crate gives for a text: the bytes, or the text of the
/// error.
pub uninterp spec fn base64_decode(s: Seq<char>) -> Result<Seq<u8>, Seq<char>>;

/// What `STANDARD.encode` of the `base64` crate gives for some bytes.
pub uninterp spec fn base64_encode(b: Seq<u8>) -> Seq<char>;

/// The public key that `x25519_dalek` computes from a secret of 32 bytes.
pub uninterp spec fn x25519_public(secret: Seq<u8>) -> Seq<u8>;

/// Whether `c` can occur in padded standard base64.
pub open spec fn base64_char(c: char) -> bool {
    'A' <= c <= 'Z' || 'a' <= c <= 'z' || '0' <= c <= '9' || c == '+' || c == '/' || c == '='
}

/// Whether a text is made of the characters of padded standard base64.
pub open spec fn base64_text(s: Seq<char>) -> bool {
    forall|i: int| 0 <= i < s.len() ==> base64_char(#[trigger] s[i])
}

/// Whether a text is base64 for the bytes `b`.
pub open spec fn decodes_to(s: Seq<char>, b: Seq<u8>) -> bool {
    base64_decode(s) == Ok::<Seq<u8>, Seq<char>>(b)
}

/// Calls `base64::engine::general_purpose::STANDARD.decode`. The result is a function of the text
/// alone; an error is handed on as the text it is displayed with.
#[verifier::external_body]
fn decode_base64(s: &str) -> (r: Result<Vec<u8>, String>)
    ensures
        match r {
            Ok(b) => base64_decode(s@) matches Ok(d) && d == b@,
            Err(e) => base64_decode(s@) matches Err(d) && d == e@,
        },
{
    base64::engine::general_purpose::STANDARD.decode(s).map_err(|e| e.to_string())
}

/// Calls `base64::engine::general_purpose::STANDARD.encode`. The text is made of the standard
/// alphabet and padding, and decoding it gives the bytes back. Left out are inputs so long that
/// the length of the text would not fit.
#[verifier::external_body]
fn encode_base64(b: &Vec<u8>) -> (r: String)
    requires
        2 * b@.len() + 8 <= usize::MAX,
    ensures
        r@ == base64_encode(b@),
        decodes_to(r@, b@),
        base64_text(r@),
{
    base64::engine::general_purpose::STANDARD.encode(b)
}

/// Calls `x25519_dalek::PublicKey::from` on a `StaticSecret` of the given bytes: scalar
/// multiplication of the base point, always 32 bytes.
#[verifier::external_body]
fn public_of(secret: &Vec<u8>) -> (r: Vec<u8>)
    requires
        secret@.len() == KEY_BYTES,
    ensures
        r@ == x25519_public(secret@),
        r@.len() == KEY_BYTES,
{
    let mut bytes = [0u8; 32];
    bytes.copy_from_slice(secret);
    x25519_dalek::PublicKey::from(&x25519_dalek::StaticSecret::from(bytes)).to_bytes().to_vec()
}

/// Calls `x25519_dalek::StaticSecret::random_from_rng` with the thread's random number generator:
/// 32 random bytes.
#[verifier::external_body]
fn random_secret() -> (r: Vec<u8>)
    ensures
        r@.len() == KEY_BYTES,
{
    x25519_dalek::StaticSecret::random_from_rng(rand::thread_rng()).to_bytes().to_vec()
}

/// Whether a text, without the white space around it, is base64 for 32 bytes.
pub open spec fn valid_key(s: Seq<char>) -> bool {
    base64_decode(crate::text::trimmed(s)) matches Ok(b) && b.len() == KEY_BYTES
}

/// Whether a text is base64 for exactly 32 bytes.
pub fn is_valid_wg_key(s: &str) -> (r: bool)
    ensures
        r == valid_key(s@),
{
    match decode_base64(trim(s)) {
        Ok(bytes) => bytes.len() == KEY_BYTES,
        Err(_) => false,
    }
}

/// The public key, in base64, for the bytes that a private key decodes to; `decoded` is what
/// decoding it gave.
pub open spec fn public_for(decoded: Result<Seq<u8>, Seq<char>>) -> Result<Seq<char>, Seq<char>> {
    match decoded {
        Err(e) => Err("base64 decode failed: "@ + e),
        Ok(raw) => if raw.len() != KEY_BYTES {
            Err("private key must be 32 bytes, got "@ + crate::text::decimal(raw.len()))
        } else {
            Ok(base64_encode(x25519_public(raw)))
        },
    }
}

/// The public key for a private key, both in base64.
pub open spec fn derived_public(private_key: Seq<char>) -> Result<Seq<char>, Seq<char>> {
    public_for(base64_decode(crate::text::trimmed(private_key)))
}

/// Derives the public key from what decoding a private key gave.
pub fn public_from_decoded(decoded: Result<Vec<u8>, String>) -> (r: AppResult<String>)
    ensures
        match decoded {
            Err(e) => r matches Err(AppError::KeygenFailed(t)) && t@ == "base64 decode failed: "@
                + e@,
            Ok(raw) => if raw@.len() != KEY_BYTES {
                r matches Err(AppError::KeygenFailed(t)) && t@
                    == "private key must be 32 bytes, got "@ + crate::text::decimal(raw@.len())
            } else {
                r matches Ok(t) && t@ == base64_encode(x25519_public(raw@)) && valid_key(t@)
            },
        },
{
    match decoded {
        Err(e) => {
            let mut t = "base64 decode failed: ".to_owned();
            t.push_str(e.as_str());
            Err(AppError::KeygenFailed(t))
        },
        Ok(raw) => {
            if raw.len() != KEY_BYTES {
                let mut t = "private key must be 32 bytes, got ".to_owned();
                let n = decimal_text(raw.len() as u64);
                t.push_str(n.as_str());
                return Err(AppError::KeygenFailed(t));
            }
            let public = public_of(&raw);
            let text = encode_base64(&public);
            proof {
                lemma_base64_trimmed(text@);
            }
            Ok(text)
        },
    }
}

/// Derives the base64 public key from a base64 private key. White space around the private key
/// does not count.
pub fn pubkey_from_private(private_key: &str) -> (r: AppResult<String>)
    ensures
        match r {
            Ok(t) => derived_public(private_key@) == Ok::<_, Seq<char>>(t@) && valid_key(t@),
            Err(AppError::KeygenFailed(t)) => derived_public(private_key@) == Err::<
                Seq<char>,
                _,
            >(t@),
            Err(_) => false,
        },
{
    public_from_decoded(decode_base64(trim(private_key)))
}

/// Base64 text has no white space to trim.
proof fn lemma_base64_trimmed(s: Seq<char>)
    requires
        base64_text(s),
    ensures
        crate::text::trimmed(s) == s,
{
    if s.len() > 0 {
        assert(base64_char(s[0]) && base64_char(s[s.len() - 1]));
    }
    crate::text::lemma_trim_keeps(s);
}

/// The base64 pair of private and public key for a secret. Deriving the public key from the
/// private one gives the same public key, and both are valid keys.
pub fn keypair_from_secret(secret: Vec<u8>) -> (r: (String, String))
    requires
        secret@.len() == KEY_BYTES,
    ensures
        r.0@ == base64_encode(secret@),
        r.1@ == base64_encode(x25519_public(secret@)),
        derived_public(r.0@) == Ok::<_, Seq<char>>(r.1@),
        valid_key(r.0@),
        valid_key(r.1@),
{
    let public = public_of(&secret);
    let a = encode_base64(&secret);
    let b = encode_base64(&public);
    proof {
        lemma_base64_trimmed(a@);
        lemma_base64_trimmed(b@);
    }
    (a, b)
}

/// Generates a fresh pair of private and public key, both in base64. Whatever secret was drawn,
/// deriving the public key from the private one gives the same public key.
pub fn generate_keypair() -> (r: AppResult<(String, String)>)
    ensures
        r is Ok,
        derived_public(r->Ok_0.0@) == Ok::<_, Seq<char>>(r->Ok_0.1@),
        valid_key(r->Ok_0.0@),
        valid_key(r->Ok_0.1@),
{
    Ok(keypair_from_secret(random_secret()))
}

// ── laws ────────────────────────────────────────────────────────────────────

/// A generated pair belongs together: deriving the public key from the private one, with or without
/// white space around it, gives the public one.
pub proof fn law_pairs_belong_together(
    pair: AppResult<(String, String)>,
    text: &str,
    r: AppResult<String>,
)
    requires
        call_ensures(generate_keypair, (), pair),
        call_ensures(pubkey_from_private, (text,), r),
        crate::text::trimmed(text@) == crate::text::trimmed(pair->Ok_0.0@),
    ensures
        pair is Ok && r is Ok,
        r->Ok_0@ == pair->Ok_0.1@,
{
}

/// A public key is had of 32 bytes and of no other number of them; what is wrong is said.
pub proof fn law_keys_have_32_bytes(decoded: Result<Vec<u8>, String>, r: AppResult<String>)
    requires
        call_ensures(public_from_decoded, (decoded,), r),
    ensures
        r is Ok <==> decoded is Ok && decoded->Ok_0@.len() == 32,
        r is Ok ==> r->Ok_0@ == base64_encode(x25519_public(decoded->Ok_0@)),
        r is Err ==> r->Err_0 is KeygenFailed,
        decoded is Err ==> r->Err_0->KeygenFailed_0@ == "base64 decode failed: "@
            + decoded->Err_0@,
        r is Err && decoded is Ok ==> r->Err_0->KeygenFailed_0@
            == "private key must be 32 bytes, got "@ + crate::text::decimal(
            decoded->Ok_0@.len(),
        ),
{
}

} // verus!
