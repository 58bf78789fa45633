//! The symmetric signing key, created once and kept as base64 text.
use base64::prelude::{Engine, BASE64_STANDARD};
use rand::Rng;
use vstd::prelude::*;

verus! {

/// How many random bytes a signing key is made of.
pub const KEY_BYTES: usize = 32;

/// The character of the standard base64 alphabet for the six-bit value `v`.
pub open spec fn b64_digit(v: int) -> char {
    "ABCDEFGHIJKLMNOPQRSTUVWXYZabcdefghijklmnopqrstuvwxyz0123456789+/"@[v]
}

/// The standard, padded base64 text of `bytes`: each group of three bytes
/// becomes four characters; a last group of one or two bytes is padded with `=`.
pub open spec fn base64_standard(bytes: Seq<u8>) -> Seq<char>
    decreases bytes.len(),
{
    if bytes.len() == 0 {
        Seq::empty()
    } else {
        let b0 = bytes[0] as int;
        if bytes.len() == 1 {
            seq![b64_digit(b0 / 4), b64_digit((b0 % 4) * 16), '=', '=']
        } else {
            let b1 = bytes[1] as int;
            if bytes.len() == 2 {
                seq![b64_digit(b0 / 4), b64_digit((b0 % 4) * 16 + b1 / 16), b64_digit((b1 % 16) * 4), '=']
            } else {
                let b2 = bytes[2] as int;
                seq![
                    b64_digit(b0 / 4),
                    b64_digit((b0 % 4) * 16 + b1 / 16),
                    b64_digit((b1 % 16) * 4 + b2 / 64),
                    b64_digit(b2 % 64),
                ] + base64_standard(bytes.subrange(3, bytes.len() as int))
            }
        }
    }
}

/// Base64 text has four characters for every started group of three bytes.
pub proof fn lemma_base64_len(bytes: Seq<u8>)
    ensures
        base64_standard(bytes).len() == 4 * ((bytes.len() + 2) / 3),
    decreases bytes.len(),
{
    if bytes.len() >= 3 {
        lemma_base64_len(bytes.subrange(3, bytes.len() as int));
    }
}

/// Relies on `rand::thread_rng`, a cryptographically secure generator, for 32 bytes.
#[verifier::external_body]
fn random_key_bytes() -> (r: Vec<u8>)
    ensures
        r@.len() == KEY_BYTES,
{
    rand::thread_rng().gen::<[u8; 32]>().to_vec()
}

/// Relies on `base64`'s `BASE64_STANDARD.encode`: standard alphabet, padded.
#[verifier::external_body]
fn base64_encode(bytes: &[u8]) -> (r: String)
    ensures
        r@ == base64_standard(bytes@),
{
    BASE64_STANDARD.encode(bytes)
}

/// The text form in which a signing key is stored and used.
pub fn encode_secret(key: &[u8]) -> (r: String)
    ensures
        r@ == base64_standard(key@),
        r@.len() == 4 * ((key@.len() + 2) / 3),
{
    proof {
        lemma_base64_len(key@);
    }
    base64_encode(key)
}

/// Generates a fresh signing key: 32 random bytes, as base64 text of 44 characters.
pub fn new_secret() -> (r: String)
    ensures
        exists|b: Seq<u8>| b.len() == KEY_BYTES && r@ == #[trigger] base64_standard(b),
        r@.len() == 44,
{
    let key = random_key_bytes();
    let r = encode_secret(key.as_slice());
    assert(r@ == base64_standard(key@));
    r
}

} // verus!
