//! CSRF anti-forgery pairs: a keyed cipher mints `(token, secret)` pairs and
//! verifies a submitted pair, with the binding between the two enforced by
//! authenticated encryption (ChaCha20-Poly1305 under a fixed 256-bit key).

use aead::generic_array::GenericArray;
use aead::{Aead, KeyInit};
use chacha20poly1305::ChaCha20Poly1305;
use vstd::prelude::*;
use vstd::slice::slice_subrange;

verus! {

/// What sealing yields: the ciphertext-plus-tag that ChaCha20-Poly1305
/// produces from a key, a nonce and a plaintext.
pub uninterp spec fn seal_of(key: Seq<u8>, nonce: Seq<u8>, plaintext: Seq<u8>) -> Seq<u8>;

/// What opening yields: the plaintext that ChaCha20-Poly1305 recovers from a
/// key, a nonce and a ciphertext-plus-tag, or nothing when the tag check
/// fails.
pub uninterp spec fn open_of(key: Seq<u8>, nonce: Seq<u8>, ciphertext: Seq<u8>) -> Option<Seq<u8>>;

/// Relies on `chacha20poly1305::ChaCha20Poly1305`, keyed by
/// `aead::KeyInit::new` and driven through `aead::Aead::encrypt`: sealing is
/// a function of key, nonce and plaintext alone; the result appends the
/// 16-byte Poly1305 tag to a ciphertext of the plaintext's length; opening
/// the result under the same key and nonce recovers the plaintext; and
/// encryption fails only when the plaintext exceeds the scheme's length
/// bound (2^38 - 64 bytes).
#[verifier::external_body]
fn aead_seal(key: &[u8; 32], nonce: &[u8], plaintext: &[u8]) -> (r: Option<Vec<u8>>)
    requires
        nonce@.len() == 12,
    ensures
        r matches Some(ct) ==> {
            &&& ct@ == seal_of(key@, nonce@, plaintext@)
            &&& ct@.len() == plaintext@.len() + 16
            &&& open_of(key@, nonce@, ct@) == Some(plaintext@)
        },
        plaintext@.len() <= 0xFFFF_FFFF ==> r is Some,
{
    let cipher = ChaCha20Poly1305::new(GenericArray::from_slice(key));
    cipher.encrypt(GenericArray::from_slice(nonce), plaintext).ok()
}

/// Relies on `chacha20poly1305::ChaCha20Poly1305`, keyed by
/// `aead::KeyInit::new` and driven through `aead::Aead::decrypt`: opening is
/// a function of key, nonce and ciphertext alone, succeeding exactly when
/// the authentication tag verifies.
#[verifier::external_body]
fn aead_open(key: &[u8; 32], nonce: &[u8], ciphertext: &[u8]) -> (r: Option<Vec<u8>>)
    requires
        nonce@.len() == 12,
    ensures
        match r {
            Some(plaintext) => open_of(key@, nonce@, ciphertext@) == Some(plaintext@),
            None => open_of(key@, nonce@, ciphertext@) is None,
        },
{
    let cipher = ChaCha20Poly1305::new(GenericArray::from_slice(key));
    cipher.decrypt(GenericArray::from_slice(nonce), ciphertext).ok()
}

/// Relies on `rand::thread_rng`, a thread-safe CSPRNG, driven through
/// `rand::Rng::fill`: yields the requested number of bytes; nothing is
/// assumed of the values drawn.
#[verifier::external_body]
fn random_bytes(len: usize) -> (r: Vec<u8>)
    ensures
        r@.len() == len,
{
    let mut buf = vec![0u8; len];
    rand::Rng::fill(&mut rand::thread_rng(), &mut buf[..]);
    buf
}

/// Byte-for-byte equality of two byte strings.
fn bytes_eq(a: &[u8], b: &[u8]) -> (r: bool)
    ensures
        r == (a@ == b@),
{
    if a.len() != b.len() {
        return false;
    }
    let mut i: usize = 0;
    while i < a.len()
        invariant
            i <= a@.len(),
            a@.len() == b@.len(),
            forall|j: int| 0 <= j < i ==> a@[j] == b@[j],
        decreases a@.len() - i,
    {
        if a[i] != b[i] {
            return false;
        }
        i += 1;
    }
    proof {
        assert(a@ =~= b@);
    }
    true
}

/// The largest configurable token size: keeps every sealed message well
/// under the AEAD scheme's plaintext bound.
pub const TOKEN_SIZE_MAX: usize = 0xFFFF_FFFF;

/// When a token/secret pair is cryptographically bound: the token meets the
/// 8-byte floor, the secret is at least nonce-plus-tag long, and opening the
/// secret's tail under the secret's 12-byte nonce prefix recovers exactly
/// the token.
pub open spec fn token_matches(key: Seq<u8>, token: Seq<u8>, secret: Seq<u8>) -> bool {
    &&& token.len() >= 8
    &&& secret.len() >= 20
    &&& open_of(key, secret.subrange(0, 12), secret.subrange(12, secret.len() as int)) == Some(
        token,
    )
}

/// A CSRF cipher: a 256-bit ChaCha20-Poly1305 key fixed at construction, and
/// the byte length of the tokens it issues.
pub struct CcpCipher {
    aead_key: [u8; 32],
    token_size: usize,
}

impl CcpCipher {
    /// The cipher's key, as the byte string it holds.
    pub closed spec fn key(self) -> Seq<u8> {
        self.aead_key@
    }

    /// The configured byte length of issued tokens.
    pub closed spec fn size(self) -> nat {
        self.token_size as nat
    }

    /// Well-formed: the token size honors the 8-byte floor and stays under
    /// the seal bound.
    pub open spec fn wf(self) -> bool {
        8 <= self.size() <= TOKEN_SIZE_MAX
    }

    /// Returns a cipher over the given 256-bit key, issuing 32-byte tokens.
    pub fn new(aead_key: [u8; 32]) -> (r: Self)
        ensures
            r.key() == aead_key@,
            r.size() == 32,
            r.wf(),
    {
        Self { aead_key, token_size: 32 }
    }

    /// Sets the byte length of issued tokens; a token under 8 bytes would
    /// materially weaken the anti-forgery guarantee, so such a size is ruled
    /// out at construction time.
    pub fn token_size(self, token_size: usize) -> (r: Self)
        requires
            8 <= token_size <= TOKEN_SIZE_MAX,
        ensures
            r.key() == self.key(),
            r.size() == token_size,
            r.wf(),
    {
        Self { token_size, ..self }
    }

    /// Verifies a submitted token/secret pair against the cipher's key;
    /// fails closed on under-length input, tag mismatch and plaintext
    /// mismatch alike, with no indication of which occurred.
    pub fn verify(&self, token: &[u8], secret: &[u8]) -> (r: bool)
        ensures
            r == token_matches(self.key(), token@, secret@),
    {
        if token.len() < 8 || secret.len() < 20 {
            false
        } else {
            let nonce = slice_subrange(secret, 0, 12);
            let tail = slice_subrange(secret, 12, secret.len());
            match aead_open(&self.aead_key, nonce, tail) {
                Some(plaintext) => bytes_eq(plaintext.as_slice(), token),
                None => false,
            }
        }
    }

    /// Mints a fresh pair: the token is `size` freshly drawn random bytes;
    /// the secret is a fresh random 12-byte nonce followed by the token
    /// sealed under the cipher's key and that nonce. The pair returned
    /// always verifies.
    pub fn generate(&self) -> (r: (Vec<u8>, Vec<u8>))
        requires
            self.wf(),
        ensures
            r.0@.len() == self.size(),
            r.1@.len() == self.size() + 28,
            r.1@.subrange(12, r.1@.len() as int) == seal_of(
                self.key(),
                r.1@.subrange(0, 12),
                r.0@,
            ),
            token_matches(self.key(), r.0@, r.1@),
    {
        let token = random_bytes(self.token_size);
        let mut secret = random_bytes(12);
        match aead_seal(&self.aead_key, secret.as_slice(), token.as_slice()) {
            Some(mut sealed) => {
                let ghost nonce = secret@;
                let ghost body = sealed@;
                secret.append(&mut sealed);
                proof {
                    assert(secret@.subrange(0, 12) =~= nonce);
                    assert(secret@.subrange(12, secret@.len() as int) =~= body);
                }
                (token, secret)
            },
            None => {
                proof {
                    assert(false);
                }
                (Vec::new(), Vec::new())
            },
        }
    }
}

} // verus!
