//! Cryptographic engine: identity keypairs, detached signatures, shared-key
//! derivation, authenticated symmetric encryption with a fresh random nonce
//! per message, sealed boxes for unauthenticated first contact, and PIN
//! generation.
//!
//! The primitives themselves come from the sodium library and are reached
//! through trusted wrappers; everything around them — the shared-key table,
//! the nonce-and-ciphertext framing, key parsing and error reporting — is
//! verified.

use vstd::prelude::*;
use vstd::string::StringSliceAdditionalSpecFns;
use crate::errors::Error;
use crate::support;
use crate::text::str_eq;

verus! {

/// Bytes of an encryption public key, an encryption secret key and a
/// precomputed symmetric key.
pub const KEY_LEN: usize = 32;

/// Bytes of a nonce prefixed to every encrypted message.
pub const NONCE_LEN: usize = 24;

/// Bytes the authentication tag adds to an encrypted message.
pub const MAC_LEN: usize = 16;

/// Bytes of a signing public key.
pub const SIGN_PUBLIC_LEN: usize = 32;

/// Bytes of a signing secret key.
pub const SIGN_SECRET_LEN: usize = 64;

/// Bytes of a detached signature.
pub const SIGNATURE_LEN: usize = 64;

/// Bytes a sealed box adds to a message.
pub const SEAL_LEN: usize = 48;

pub uninterp spec fn b64_of(b: Seq<u8>) -> Seq<char>;

pub uninterp spec fn b64_decoded(s: Seq<char>) -> Option<Seq<u8>>;

pub uninterp spec fn shared_key_of(pk: Seq<u8>, sk: Seq<u8>) -> Seq<u8>;

pub uninterp spec fn seal_bytes(m: Seq<u8>, n: Seq<u8>, k: Seq<u8>) -> Seq<u8>;

pub uninterp spec fn open_bytes(c: Seq<u8>, n: Seq<u8>, k: Seq<u8>) -> Option<Seq<u8>>;

pub uninterp spec fn sign_bytes(m: Seq<u8>, sk: Seq<u8>) -> Seq<u8>;

pub uninterp spec fn verify_ok(sig: Seq<u8>, m: Seq<u8>, pk: Seq<u8>) -> bool;

pub uninterp spec fn sealed_open(c: Seq<u8>, pk: Seq<u8>, sk: Seq<u8>) -> Option<Seq<u8>>;

/// A signing keypair under which every detached signature made with the
/// secret half verifies with the public half.
pub open spec fn sign_keypair_good(pk: Seq<u8>, sk: Seq<u8>) -> bool {
    forall|m: Seq<u8>| #[trigger] verify_ok(sign_bytes(m, sk), m, pk)
}

/// Relies on base64::encode: the standard padded alphabet, four output
/// characters for every three input bytes, and base64::decode inverts it.
#[verifier::external_body]
fn b64_encode(b: &[u8]) -> (r: String)
    ensures
        r@ == b64_of(b@),
        b64_decoded(r@) == Some(b@),
        r@.len() == 4 * ((b@.len() + 2) / 3),
{
    base64::encode(b)
}

/// Relies on base64::decode: the bytes a well-formed base64 string denotes,
/// or nothing when the string is not well-formed.
#[verifier::external_body]
fn b64_decode_vec(s: &str) -> (r: Option<Vec<u8>>)
    ensures
        (match r {
            Some(v) => b64_decoded(s@) == Some(v@),
            None => b64_decoded(s@) is None,
        }),
{
    base64::decode(s).ok()
}

/// Relies on box_::gen_keypair: a fresh random encryption keypair of the
/// documented key sizes.  Nothing else is promised of a random value.
#[verifier::external_body]
fn box_gen_keypair() -> (r: (Vec<u8>, Vec<u8>))
    ensures
        r.0@.len() == KEY_LEN,
        r.1@.len() == KEY_LEN,
{
    let (pk, sk) = sodiumoxide::crypto::box_::gen_keypair();
    (pk.0.to_vec(), sk.0.to_vec())
}

/// Relies on box_::gen_nonce: a fresh random nonce of the documented size.
/// Nothing else is promised of a random value.
#[verifier::external_body]
fn box_gen_nonce() -> (r: Vec<u8>)
    ensures
        r@.len() == NONCE_LEN,
{
    sodiumoxide::crypto::box_::gen_nonce().0.to_vec()
}

/// Relies on box_::precompute: the symmetric key is a function of the two
/// keys alone, of the documented size.
#[verifier::external_body]
fn box_precompute(pk: &[u8], sk: &[u8]) -> (r: Vec<u8>)
    requires
        pk@.len() == KEY_LEN,
        sk@.len() == KEY_LEN,
    ensures
        r@ == shared_key_of(pk@, sk@),
        r@.len() == KEY_LEN,
{
    let pk = sodiumoxide::crypto::box_::PublicKey::from_slice(pk).unwrap();
    let sk = sodiumoxide::crypto::box_::SecretKey::from_slice(sk).unwrap();
    sodiumoxide::crypto::box_::precompute(&pk, &sk).0.to_vec()
}

/// Relies on box_::seal_precomputed: the ciphertext is a function of
/// message, nonce and key, one authentication tag longer than the message,
/// and box_::open_precomputed with the same nonce and key inverts it.
#[verifier::external_body]
fn box_seal_precomputed(m: &[u8], n: &[u8], k: &[u8]) -> (r: Vec<u8>)
    requires
        n@.len() == NONCE_LEN,
        k@.len() == KEY_LEN,
    ensures
        r@ == seal_bytes(m@, n@, k@),
        r@.len() == m@.len() + MAC_LEN,
        open_bytes(r@, n@, k@) == Some(m@),
{
    let n = sodiumoxide::crypto::box_::Nonce::from_slice(n).unwrap();
    let k = sodiumoxide::crypto::box_::PrecomputedKey::from_slice(k).unwrap();
    sodiumoxide::crypto::box_::seal_precomputed(m, &n, &k)
}

/// Relies on box_::open_precomputed: verification and decryption are a
/// function of ciphertext, nonce and key; success yields a message one
/// authentication tag shorter than the ciphertext, failure yields nothing.
#[verifier::external_body]
fn box_open_precomputed(c: &[u8], n: &[u8], k: &[u8]) -> (r: Option<Vec<u8>>)
    requires
        n@.len() == NONCE_LEN,
        k@.len() == KEY_LEN,
    ensures
        (match r {
            Some(m) => open_bytes(c@, n@, k@) == Some(m@) && m@.len() + MAC_LEN == c@.len(),
            None => open_bytes(c@, n@, k@) is None,
        }),
{
    let n = sodiumoxide::crypto::box_::Nonce::from_slice(n).unwrap();
    let k = sodiumoxide::crypto::box_::PrecomputedKey::from_slice(k).unwrap();
    sodiumoxide::crypto::box_::open_precomputed(c, &n, &k).ok()
}

/// Relies on sealedbox::seal: an anonymous ciphertext a fixed overhead
/// longer than the message.  The ciphertext is randomized, so nothing more
/// is promised of it.
#[verifier::external_body]
fn sealedbox_seal(m: &[u8], pk: &[u8]) -> (r: Vec<u8>)
    requires
        pk@.len() == KEY_LEN,
    ensures
        r@.len() == m@.len() + SEAL_LEN,
{
    let pk = sodiumoxide::crypto::box_::PublicKey::from_slice(pk).unwrap();
    sodiumoxide::crypto::sealedbox::seal(m, &pk)
}

/// Relies on sealedbox::open: verification and decryption are a function of
/// ciphertext and keypair; failure yields nothing.
#[verifier::external_body]
fn sealedbox_open(c: &[u8], pk: &[u8], sk: &[u8]) -> (r: Option<Vec<u8>>)
    requires
        pk@.len() == KEY_LEN,
        sk@.len() == KEY_LEN,
    ensures
        (match r {
            Some(m) => sealed_open(c@, pk@, sk@) == Some(m@),
            None => sealed_open(c@, pk@, sk@) is None,
        }),
{
    let pk = sodiumoxide::crypto::box_::PublicKey::from_slice(pk).unwrap();
    let sk = sodiumoxide::crypto::box_::SecretKey::from_slice(sk).unwrap();
    sodiumoxide::crypto::sealedbox::open(c, &pk, &sk).ok()
}

/// Relies on sign::gen_keypair: a fresh random signing keypair of the
/// documented key sizes, under which detached signatures made with the
/// secret half verify with the public half.
#[verifier::external_body]
fn sign_gen_keypair() -> (r: (Vec<u8>, Vec<u8>))
    ensures
        r.0@.len() == SIGN_PUBLIC_LEN,
        r.1@.len() == SIGN_SECRET_LEN,
        sign_keypair_good(r.0@, r.1@),
{
    let (pk, sk) = sodiumoxide::crypto::sign::gen_keypair();
    (pk.0.to_vec(), sk.0.to_vec())
}

/// Relies on sign::sign_detached: Ed25519 signing is deterministic, so the
/// signature is a function of message and secret key, of the documented
/// size, with its scalar half canonical (reduced below the group order, so
/// the top three bits of its last byte are clear).
#[verifier::external_body]
fn sign_detached(m: &[u8], sk: &[u8]) -> (r: Vec<u8>)
    requires
        sk@.len() == SIGN_SECRET_LEN,
    ensures
        r@ == sign_bytes(m@, sk@),
        r@.len() == SIGNATURE_LEN,
        (r@[63] & 0xe0) == 0,
{
    let sk = sodiumoxide::crypto::sign::SecretKey::from_slice(sk).unwrap();
    sodiumoxide::crypto::sign::sign_detached(m, &sk).to_bytes().to_vec()
}

/// Relies on sign::verify_detached: the verdict is a function of signature,
/// message and public key.  The signature must have the well-formed shape
/// that Signature::from_bytes accepts, since from_bytes is used to rebuild
/// it.
#[verifier::external_body]
fn verify_detached(sig: &[u8], m: &[u8], pk: &[u8]) -> (r: bool)
    requires
        sig@.len() == SIGNATURE_LEN,
        (sig@[63] & 0xe0) == 0,
        pk@.len() == SIGN_PUBLIC_LEN,
    ensures
        r == verify_ok(sig@, m@, pk@),
{
    let sig = sodiumoxide::crypto::sign::Signature::from_bytes(sig).unwrap();
    let pk = sodiumoxide::crypto::sign::PublicKey::from_slice(pk).unwrap();
    sodiumoxide::crypto::sign::verify_detached(&sig, m, &pk)
}

/// For every message, a signature made with the secret half of a good
/// signing keypair verifies under its public half.
pub proof fn lemma_sign_verify(pk: Seq<u8>, sk: Seq<u8>, m: Seq<u8>)
    requires
        sign_keypair_good(pk, sk),
    ensures
        verify_ok(sign_bytes(m, sk), m, pk),
{
}

/// An encryption keypair.
pub struct KeyPair {
    /// The public half.
    pub public_key: Vec<u8>,
    /// The secret half.
    pub secret_key: Vec<u8>,
}

impl KeyPair {
    /// Both halves have the documented key size.
    pub open spec fn wf(self) -> bool {
        self.public_key@.len() == KEY_LEN && self.secret_key@.len() == KEY_LEN
    }

    /// Fresh random encryption keypair.
    pub fn generate() -> (r: Self)
        ensures
            r.wf(),
    {
        let (public_key, secret_key) = box_gen_keypair();
        KeyPair { public_key, secret_key }
    }

    /// The public half, base64-encoded.
    pub fn public_key_base64(&self) -> (r: String)
        ensures
            r@ == b64_of(self.public_key@),
            b64_decoded(r@) == Some(self.public_key@),
    {
        b64_encode(self.public_key.as_slice())
    }

    /// Parses a base64-encoded encryption public key, rejecting a string
    /// that is not base64 or decodes to the wrong length.
    pub fn public_key_from_base64(base64_str: &str) -> (r: Result<Vec<u8>, Error>)
        ensures
            (match r {
                Ok(k) => b64_decoded(base64_str@) == Some(k@) && k@.len() == KEY_LEN,
                Err(e) => {
                    &&& e matches Error::Crypto(_)
                    &&& (match b64_decoded(base64_str@) {
                        Some(b) => b.len() != KEY_LEN,
                        None => true,
                    })
                },
            }),
    {
        match b64_decode_vec(base64_str) {
            Some(bytes) => {
                if bytes.len() == KEY_LEN {
                    Ok(bytes)
                } else {
                    Err(Error::Crypto("public key has the wrong length".to_owned()))
                }
            },
            None => Err(Error::Crypto("public key is not valid base64".to_owned())),
        }
    }
}

impl Clone for KeyPair {
    fn clone(&self) -> (r: Self)
        ensures
            r.public_key@ == self.public_key@,
            r.secret_key@ == self.secret_key@,
    {
        KeyPair {
            public_key: crate::text::clone_bytes(&self.public_key),
            secret_key: crate::text::clone_bytes(&self.secret_key),
        }
    }
}

/// A signing keypair.  The secret half never leaves the structure.
pub struct SignKeyPair {
    /// The public half.
    pub public_key: Vec<u8>,
    secret_key: Vec<u8>,
}

impl SignKeyPair {
    /// The secret half, for contracts.
    pub closed spec fn secret_view(self) -> Seq<u8> {
        self.secret_key@
    }

    /// The public half, for contracts.
    pub closed spec fn public_view(self) -> Seq<u8> {
        self.public_key@
    }

    /// Both halves have the documented key size.
    pub open spec fn wf(self) -> bool {
        self.public_view().len() == SIGN_PUBLIC_LEN && self.secret_view().len() == SIGN_SECRET_LEN
    }

    /// Signatures made with the secret half verify under the public half.
    pub open spec fn good(self) -> bool {
        sign_keypair_good(self.public_view(), self.secret_view())
    }

    /// Fresh random signing keypair.
    pub fn generate() -> (r: Self)
        ensures
            r.wf(),
            r.good(),
    {
        let (public_key, secret_key) = sign_gen_keypair();
        SignKeyPair { public_key, secret_key }
    }

    /// Builds a signing keypair from raw halves.
    pub fn from_parts(public_key: Vec<u8>, secret_key: Vec<u8>) -> (r: Self)
        requires
            public_key@.len() == SIGN_PUBLIC_LEN,
            secret_key@.len() == SIGN_SECRET_LEN,
        ensures
            r.wf(),
            r.public_view() == public_key@,
            r.secret_view() == secret_key@,
    {
        SignKeyPair { public_key, secret_key }
    }

    /// Detached signature over `data` with the secret half.
    pub fn sign(&self, data: &[u8]) -> (r: Vec<u8>)
        requires
            self.wf(),
        ensures
            r@ == sign_bytes(data@, self.secret_view()),
            r@.len() == SIGNATURE_LEN,
            (r@[63] & 0xe0) == 0,
    {
        sign_detached(data, self.secret_key.as_slice())
    }

    /// Verifies a detached signature over `data` with the public half.  A
    /// signature of the wrong shape never verifies.
    pub fn verify(&self, signature: &[u8], data: &[u8]) -> (r: bool)
        requires
            self.wf(),
        ensures
            signature@.len() == SIGNATURE_LEN && (signature@[63] & 0xe0) == 0 ==> r == verify_ok(
                signature@,
                data@,
                self.public_view(),
            ),
            !(signature@.len() == SIGNATURE_LEN && (signature@[63] & 0xe0) == 0) ==> r == false,
    {
        if signature.len() == SIGNATURE_LEN && (signature[63] & 0xe0) == 0 {
            verify_detached(signature, data, self.public_key.as_slice())
        } else {
            false
        }
    }

    /// The public half, base64-encoded.
    pub fn public_key_base64(&self) -> (r: String)
        ensures
            r@ == b64_of(self.public_view()),
            b64_decoded(r@) == Some(self.public_view()),
    {
        b64_encode(self.public_key.as_slice())
    }

    /// Parses a base64-encoded signing public key, rejecting a string that
    /// is not base64 or decodes to the wrong length.
    pub fn public_key_from_base64(base64_str: &str) -> (r: Result<Vec<u8>, Error>)
        ensures
            (match r {
                Ok(k) => b64_decoded(base64_str@) == Some(k@) && k@.len() == SIGN_PUBLIC_LEN,
                Err(e) => {
                    &&& e matches Error::Crypto(_)
                    &&& (match b64_decoded(base64_str@) {
                        Some(b) => b.len() != SIGN_PUBLIC_LEN,
                        None => true,
                    })
                },
            }),
    {
        match b64_decode_vec(base64_str) {
            Some(bytes) => {
                if bytes.len() == SIGN_PUBLIC_LEN {
                    Ok(bytes)
                } else {
                    Err(Error::Crypto("public key has the wrong length".to_owned()))
                }
            },
            None => Err(Error::Crypto("public key is not valid base64".to_owned())),
        }
    }
}

impl Clone for SignKeyPair {
    fn clone(&self) -> (r: Self)
        ensures
            r.public_view() == self.public_view(),
            r.secret_view() == self.secret_view(),
    {
        SignKeyPair {
            public_key: crate::text::clone_bytes(&self.public_key),
            secret_key: crate::text::clone_bytes(&self.secret_key),
        }
    }
}

/// One row of the shared-key table: what is needed to re-derive the
/// symmetric key for a paired device.
pub struct SharedKeyEntry {
    /// The remote device's encryption public key.
    pub remote_public_key: Vec<u8>,
    /// The local encryption secret key the entry was made with.
    pub local_secret_key: Vec<u8>,
}

impl SharedKeyEntry {
    /// Both keys have the documented size.
    pub open spec fn wf(self) -> bool {
        self.remote_public_key@.len() == KEY_LEN && self.local_secret_key@.len() == KEY_LEN
    }

    /// The symmetric key this entry derives.
    pub open spec fn symmetric_key(self) -> Seq<u8> {
        shared_key_of(self.remote_public_key@, self.local_secret_key@)
    }
}

/// First entry of the table whose device id reads `id`, if any.
pub open spec fn spec_find_entry(s: Seq<(String, SharedKeyEntry)>, id: Seq<char>) -> Option<
    SharedKeyEntry,
>
    decreases s.len(),
{
    if s.len() == 0 {
        None
    } else if s[0].0@ == id {
        Some(s[0].1)
    } else {
        spec_find_entry(s.drop_first(), id)
    }
}

proof fn lemma_find_entry_at(s: Seq<(String, SharedKeyEntry)>, id: Seq<char>, i: int)
    requires
        0 <= i < s.len(),
        s[i].0@ == id,
        forall|j: int| 0 <= j < i ==> s[j].0@ != id,
    ensures
        spec_find_entry(s, id) == Some(s[i].1),
    decreases s.len(),
{
    if i > 0 {
        lemma_find_entry_at(s.drop_first(), id, i - 1);
    }
}

proof fn lemma_find_entry_none(s: Seq<(String, SharedKeyEntry)>, id: Seq<char>)
    requires
        forall|j: int| 0 <= j < s.len() ==> s[j].0@ != id,
    ensures
        spec_find_entry(s, id) is None,
    decreases s.len(),
{
    if s.len() > 0 {
        lemma_find_entry_none(s.drop_first(), id);
    }
}

/// The cryptographic engine: one encryption keypair, one signing keypair
/// and the table of shared-key entries, one per paired device.
pub struct CryptoManager {
    encryption_keypair: KeyPair,
    signing_keypair: SignKeyPair,
    shared_keys: Vec<(String, SharedKeyEntry)>,
}

impl CryptoManager {
    /// The encryption public key, for contracts.
    pub closed spec fn enc_public(self) -> Seq<u8> {
        self.encryption_keypair.public_key@
    }

    /// The encryption secret key, for contracts.
    pub closed spec fn enc_secret(self) -> Seq<u8> {
        self.encryption_keypair.secret_key@
    }

    /// The signing public key, for contracts.
    pub closed spec fn sign_public(self) -> Seq<u8> {
        self.signing_keypair.public_view()
    }

    /// The signing secret key, for contracts.
    pub closed spec fn sign_secret(self) -> Seq<u8> {
        self.signing_keypair.secret_view()
    }

    /// The shared-key entry for a device id, if any.
    pub closed spec fn shared_entry(self, id: Seq<char>) -> Option<SharedKeyEntry> {
        spec_find_entry(self.shared_keys@, id)
    }

    /// Whether a shared key was derived for the device.
    pub open spec fn has_shared_key(self, id: Seq<char>) -> bool {
        self.shared_entry(id) is Some
    }

    /// The symmetric key derived for the device.
    pub open spec fn symmetric_key(self, id: Seq<char>) -> Seq<u8> {
        match self.shared_entry(id) {
            Some(e) => e.symmetric_key(),
            None => Seq::empty(),
        }
    }

    /// Whether the signing keypair is good: signatures it makes verify
    /// under its public key.  Holds of every generated manager.
    pub open spec fn signing_good(self) -> bool {
        sign_keypair_good(self.sign_public(), self.sign_secret())
    }

    /// Well-formedness: keys have their documented sizes and the table
    /// holds at most one entry per device id.
    pub closed spec fn wf(self) -> bool {
        &&& self.encryption_keypair.wf()
        &&& self.signing_keypair.wf()
        &&& (forall|i: int|
            0 <= i < self.shared_keys@.len() ==> (#[trigger] self.shared_keys@[i].1).wf())
        &&& (forall|i: int, j: int|
            0 <= i < j < self.shared_keys@.len() ==> (#[trigger] self.shared_keys@[i].0@)
                != (#[trigger] self.shared_keys@[j].0@))
    }

    /// Fresh engine with newly generated keypairs and an empty table.
    pub fn new() -> (r: Self)
        ensures
            r.wf(),
            r.signing_good(),
            forall|id: Seq<char>| !r.has_shared_key(id),
    {
        let r = CryptoManager {
            encryption_keypair: KeyPair::generate(),
            signing_keypair: SignKeyPair::generate(),
            shared_keys: Vec::new(),
        };
        proof {
            assert forall|id: Seq<char>| !r.has_shared_key(id) by {
                lemma_find_entry_none(r.shared_keys@, id);
            }
        }
        r
    }

    /// Engine loaded from persisted key material, with an empty table.
    pub fn with_keys(
        encryption_public: Vec<u8>,
        encryption_secret: Vec<u8>,
        signing_public: Vec<u8>,
        signing_secret: Vec<u8>,
    ) -> (r: Self)
        requires
            encryption_public@.len() == KEY_LEN,
            encryption_secret@.len() == KEY_LEN,
            signing_public@.len() == SIGN_PUBLIC_LEN,
            signing_secret@.len() == SIGN_SECRET_LEN,
        ensures
            r.wf(),
            r.enc_public() == encryption_public@,
            r.enc_secret() == encryption_secret@,
            r.sign_public() == signing_public@,
            r.sign_secret() == signing_secret@,
            forall|id: Seq<char>| !r.has_shared_key(id),
    {
        let r = CryptoManager {
            encryption_keypair: KeyPair { public_key: encryption_public, secret_key: encryption_secret },
            signing_keypair: SignKeyPair::from_parts(signing_public, signing_secret),
            shared_keys: Vec::new(),
        };
        proof {
            assert forall|id: Seq<char>| !r.has_shared_key(id) by {
                lemma_find_entry_none(r.shared_keys@, id);
            }
        }
        r
    }

    /// The encryption public key, base64-encoded.
    pub fn get_public_key_base64(&self) -> (r: String)
        ensures
            r@ == b64_of(self.enc_public()),
            b64_decoded(r@) == Some(self.enc_public()),
    {
        self.encryption_keypair.public_key_base64()
    }

    /// The signing public key, base64-encoded.
    pub fn get_signing_key_base64(&self) -> (r: String)
        ensures
            r@ == b64_of(self.sign_public()),
            b64_decoded(r@) == Some(self.sign_public()),
    {
        self.signing_keypair.public_key_base64()
    }

    /// Both public keys, base64-encoded: encryption first, signing second.
    pub fn get_public_keys(&self) -> (r: (String, String))
        ensures
            r.0@ == b64_of(self.enc_public()),
            r.1@ == b64_of(self.sign_public()),
    {
        (self.get_public_key_base64(), self.get_signing_key_base64())
    }

    /// Index of the table row for a device id, if any.
    fn find_index(&self, device_id: &str) -> (r: Option<usize>)
        ensures
            (match r {
                Some(i) => {
                    &&& i < self.shared_keys@.len()
                    &&& self.shared_keys@[i as int].0@ == device_id@
                    &&& forall|j: int| 0 <= j < i ==> self.shared_keys@[j].0@ != device_id@
                },
                None => forall|j: int|
                    0 <= j < self.shared_keys@.len() ==> self.shared_keys@[j].0@ != device_id@,
            }),
    {
        let n = self.shared_keys.len();
        let mut i: usize = 0;
        while i < n
            invariant
                n == self.shared_keys@.len(),
                i <= n,
                forall|j: int| 0 <= j < i ==> self.shared_keys@[j].0@ != device_id@,
            decreases n - i,
        {
            if str_eq(self.shared_keys[i].0.as_str(), device_id) {
                return Some(i);
            }
            i = i + 1;
        }
        None
    }

    /// Stores (or overwrites) the shared-key entry for the device: the
    /// remote public key together with the local encryption secret key.
    /// Storing again for the same device replaces the entry, so the table
    /// never grows a second row for one id.
    pub fn generate_shared_key(&mut self, device_id: &str, remote_public_key: &Vec<u8>) -> (r:
        Result<(), Error>)
        requires
            old(self).wf(),
            remote_public_key@.len() == KEY_LEN,
        ensures
            r is Ok,
            final(self).wf(),
            final(self).shared_entry(device_id@) matches Some(e) && e.remote_public_key@
                == remote_public_key@ && e.local_secret_key@ == old(self).enc_secret(),
            forall|id: Seq<char>|
                id != device_id@ ==> final(self).shared_entry(id) == old(self).shared_entry(id),
            final(self).enc_public() == old(self).enc_public(),
            final(self).enc_secret() == old(self).enc_secret(),
            final(self).sign_public() == old(self).sign_public(),
            final(self).sign_secret() == old(self).sign_secret(),
    {
        let entry = SharedKeyEntry {
            remote_public_key: crate::text::clone_bytes(remote_public_key),
            local_secret_key: crate::text::clone_bytes(&self.encryption_keypair.secret_key),
        };
        let key = device_id.to_owned();
        let found = self.find_index(device_id);
        match found {
            Some(i) => {
                self.shared_keys[i] = (key, entry);
                proof {
                    let olds = old(self).shared_keys@;
                    let s = self.shared_keys@;
                    assert(s[i as int].0@ == device_id@);
                    lemma_find_entry_at(s, device_id@, i as int);
                    assert forall|id: Seq<char>|
                        id != device_id@ implies #[trigger] spec_find_entry(s, id)
                        == spec_find_entry(olds, id) by {
                        lemma_update_effect(olds, s, i as int, id);
                    }
                    assert forall|j: int, k: int| 0 <= j < k < s.len() implies (
                    #[trigger] s[j].0@) != (#[trigger] s[k].0@) by {
                        assert(s[j].0@ == olds[j].0@);
                        assert(s[k].0@ == olds[k].0@);
                    }
                }
                Ok(())
            },
            None => {
                self.shared_keys.push((key, entry));
                proof {
                    let olds = old(self).shared_keys@;
                    let s = self.shared_keys@;
                    assert(s[olds.len() as int].0@ == device_id@);
                    lemma_find_entry_at(s, device_id@, olds.len() as int);
                    assert forall|id: Seq<char>|
                        id != device_id@ implies #[trigger] spec_find_entry(s, id)
                        == spec_find_entry(olds, id) by {
                        lemma_find_push_other(olds, s[olds.len() as int], id);
                    }
                    assert forall|j: int, k: int| 0 <= j < k < s.len() implies (
                    #[trigger] s[j].0@) != (#[trigger] s[k].0@) by {
                        if k < olds.len() {
                            assert(s[j].0@ == olds[j].0@);
                            assert(s[k].0@ == olds[k].0@);
                        } else {
                            assert(s[j].0@ == olds[j].0@);
                            assert(s[k].0@ == device_id@);
                        }
                    }
                }
                Ok(())
            },
        }
    }

    /// Stores the shared-key entry for the device.
    pub fn compute_shared_key(&mut self, device_id: &str, remote_public_key: &Vec<u8>) -> (r:
        Result<(), Error>)
        requires
            old(self).wf(),
            remote_public_key@.len() == KEY_LEN,
        ensures
            r is Ok,
            final(self).wf(),
            final(self).shared_entry(device_id@) matches Some(e) && e.remote_public_key@
                == remote_public_key@ && e.local_secret_key@ == old(self).enc_secret(),
            forall|id: Seq<char>|
                id != device_id@ ==> final(self).shared_entry(id) == old(self).shared_entry(id),
            final(self).enc_public() == old(self).enc_public(),
            final(self).enc_secret() == old(self).enc_secret(),
            final(self).sign_public() == old(self).sign_public(),
            final(self).sign_secret() == old(self).sign_secret(),
    {
        self.generate_shared_key(device_id, remote_public_key)
    }

    /// Encrypts `data` for the device: a fresh random nonce followed by the
    /// authenticated ciphertext under the device's symmetric key.  Fails
    /// exactly when no shared key was derived for the device; decrypting
    /// the result with the same symmetric key gives `data` back.
    pub fn encrypt(&self, device_id: &str, data: &[u8]) -> (r: Result<Vec<u8>, Error>)
        requires
            self.wf(),
            data@.len() + NONCE_LEN + MAC_LEN <= usize::MAX,
        ensures
            r is Ok <==> self.has_shared_key(device_id@),
            r matches Err(e) ==> e matches Error::Crypto(m) && m@ == "no shared key for device"@,
            r matches Ok(c) ==> {
                &&& c@.len() == data@.len() + NONCE_LEN + MAC_LEN
                &&& c@.subrange(NONCE_LEN as int, c@.len() as int) == seal_bytes(
                    data@,
                    c@.subrange(0, NONCE_LEN as int),
                    self.symmetric_key(device_id@),
                )
                &&& decrypt_model(c@, self.symmetric_key(device_id@)) == Some(data@)
            },
    {
        let found = self.find_index(device_id);
        match found {
            Some(i) => {
                proof {
                    lemma_find_entry_at(self.shared_keys@, device_id@, i as int);
                }
                let entry = &self.shared_keys[i].1;
                let nonce = box_gen_nonce();
                let key = box_precompute(
                    entry.remote_public_key.as_slice(),
                    entry.local_secret_key.as_slice(),
                );
                let sealed = box_seal_precomputed(data, nonce.as_slice(), key.as_slice());
                let mut result: Vec<u8> = Vec::new();
                result.append(&mut { nonce });
                let ghost pre = result@;
                result.append(&mut { sealed });
                proof {
                    assert(result@.subrange(0, NONCE_LEN as int) =~= pre);
                    assert(result@.subrange(NONCE_LEN as int, result@.len() as int) =~= seal_bytes(
                        data@,
                        pre,
                        self.symmetric_key(device_id@),
                    ));
                }
                Ok(result)
            },
            None => {
                proof {
                    lemma_find_entry_none(self.shared_keys@, device_id@);
                }
                Err(Error::Crypto("no shared key for device".to_owned()))
            },
        }
    }

    /// Decrypts a nonce-prefixed authenticated ciphertext from the device.
    /// Fails exactly when the input is shorter than a nonce, when no shared
    /// key was derived for the device, or when authentication fails; on
    /// success the result is the unique plaintext the ciphertext seals.
    pub fn decrypt(&self, device_id: &str, encrypted_data: &[u8]) -> (r: Result<Vec<u8>, Error>)
        requires
            self.wf(),
        ensures
            encrypted_data@.len() < NONCE_LEN ==> (r matches Err(e) && e matches Error::Crypto(m)
                && m@ == "encrypted data too short"@),
            encrypted_data@.len() >= NONCE_LEN && !self.has_shared_key(device_id@) ==> (r matches
                Err(e) && e matches Error::Crypto(m) && m@ == "no shared key for device"@),
            encrypted_data@.len() >= NONCE_LEN && self.has_shared_key(device_id@) ==> (match
                decrypt_model(encrypted_data@, self.symmetric_key(device_id@)) {
                Some(m) => r matches Ok(v) && v@ == m,
                None => r matches Err(e) && e matches Error::Crypto(msg) && msg@
                    == "decryption failed"@,
            }),
    {
        if encrypted_data.len() < NONCE_LEN {
            return Err(Error::Crypto("encrypted data too short".to_owned()));
        }
        let found = self.find_index(device_id);
        match found {
            Some(i) => {
                proof {
                    lemma_find_entry_at(self.shared_keys@, device_id@, i as int);
                }
                let entry = &self.shared_keys[i].1;
                let nonce = slice_range_to_vec(encrypted_data, 0, NONCE_LEN);
                let cipher = slice_range_to_vec(encrypted_data, NONCE_LEN, encrypted_data.len());
                let key = box_precompute(
                    entry.remote_public_key.as_slice(),
                    entry.local_secret_key.as_slice(),
                );
                match box_open_precomputed(cipher.as_slice(), nonce.as_slice(), key.as_slice()) {
                    Some(m) => Ok(m),
                    None => Err(Error::Crypto("decryption failed".to_owned())),
                }
            },
            None => {
                proof {
                    lemma_find_entry_none(self.shared_keys@, device_id@);
                }
                Err(Error::Crypto("no shared key for device".to_owned()))
            },
        }
    }

    /// Detached signature over `data` with the signing secret key.
    pub fn sign(&self, data: &[u8]) -> (r: Vec<u8>)
        requires
            self.wf(),
        ensures
            r@ == sign_bytes(data@, self.sign_secret()),
            r@.len() == SIGNATURE_LEN,
            (r@[63] & 0xe0) == 0,
    {
        self.signing_keypair.sign(data)
    }

    /// Verifies a detached signature over `data` under a base64-encoded
    /// signing public key.  Fails exactly when the key does not parse or
    /// the signature has the wrong shape; otherwise the verdict is the
    /// verification result for the three inputs.
    pub fn verify(&self, signature: &[u8], data: &[u8], public_key_base64: &str) -> (r: Result<
        bool,
        Error,
    >)
        ensures
            (match r {
                Ok(b) => {
                    &&& (match b64_decoded(public_key_base64@) {
                        Some(k) => k.len() == SIGN_PUBLIC_LEN && signature@.len() == SIGNATURE_LEN
                            && (signature@[63] & 0xe0) == 0 && b == verify_ok(
                            signature@,
                            data@,
                            k,
                        ),
                        None => false,
                    })
                },
                Err(e) => {
                    &&& e matches Error::Crypto(_)
                    &&& (match b64_decoded(public_key_base64@) {
                        Some(k) => k.len() != SIGN_PUBLIC_LEN || signature@.len()
                            != SIGNATURE_LEN || (signature@[63] & 0xe0) != 0,
                        None => true,
                    })
                },
            }),
    {
        let public_key = match SignKeyPair::public_key_from_base64(public_key_base64) {
            Ok(k) => k,
            Err(e) => {
                return Err(e);
            },
        };
        if signature.len() != SIGNATURE_LEN {
            return Err(Error::Crypto("invalid signature format".to_owned()));
        }
        if (signature[63] & 0xe0) != 0 {
            return Err(Error::Crypto("invalid signature format".to_owned()));
        }
        Ok(verify_detached(signature, data, public_key.as_slice()))
    }

    /// Seals `data` to a base64-encoded encryption public key, for first
    /// contact before any shared key exists.  Fails exactly when the key
    /// does not parse.
    pub fn encrypt_with_public_key(&self, public_key_base64: &str, data: &[u8]) -> (r: Result<
        Vec<u8>,
        Error,
    >)
        requires
            data@.len() + SEAL_LEN <= usize::MAX,
        ensures
            (match r {
                Ok(c) => {
                    &&& c@.len() == data@.len() + SEAL_LEN
                    &&& (b64_decoded(public_key_base64@) matches Some(k) && k.len() == KEY_LEN)
                },
                Err(e) => {
                    &&& e matches Error::Crypto(_)
                    &&& (match b64_decoded(public_key_base64@) {
                        Some(k) => k.len() != KEY_LEN,
                        None => true,
                    })
                },
            }),
    {
        let public_key = match KeyPair::public_key_from_base64(public_key_base64) {
            Ok(k) => k,
            Err(e) => {
                return Err(e);
            },
        };
        Ok(sealedbox_seal(data, public_key.as_slice()))
    }

    /// Opens a sealed box with the local encryption keypair.  Fails exactly
    /// when the box does not open under that keypair.
    pub fn decrypt_with_private_key(&self, encrypted_data: &[u8]) -> (r: Result<Vec<u8>, Error>)
        requires
            self.wf(),
        ensures
            (match sealed_open(encrypted_data@, self.enc_public(), self.enc_secret()) {
                Some(m) => r matches Ok(v) && v@ == m,
                None => r matches Err(e) && e matches Error::Crypto(msg) && msg@
                    == "decryption failed"@,
            }),
    {
        match sealedbox_open(
            encrypted_data,
            self.encryption_keypair.public_key.as_slice(),
            self.encryption_keypair.secret_key.as_slice(),
        ) {
            Some(m) => Ok(m),
            None => Err(Error::Crypto("decryption failed".to_owned())),
        }
    }

    /// Six-digit PIN drawn uniformly from 100000 to 999999.
    pub fn generate_pin() -> (r: String)
        ensures
            r@.len() == 6,
            forall|i: int| 0 <= i < 6 ==> '0' <= #[trigger] r@[i] <= '9',
    {
        let n = support::random_u32_in(100000, 1000000);
        format_six_digits(n)
    }
}

/// What decrypting a nonce-prefixed ciphertext under a symmetric key gives:
/// nothing when the input is shorter than a nonce, else the result of
/// opening the remainder under the leading nonce.
pub open spec fn decrypt_model(c: Seq<u8>, key: Seq<u8>) -> Option<Seq<u8>> {
    if c.len() < NONCE_LEN {
        None
    } else {
        open_bytes(c.subrange(NONCE_LEN as int, c.len() as int), c.subrange(0, NONCE_LEN as int), key)
    }
}

/// Copies `slice[from..to]` into a fresh vector.
fn slice_range_to_vec(slice: &[u8], from: usize, to: usize) -> (r: Vec<u8>)
    requires
        from <= to <= slice@.len(),
    ensures
        r@ == slice@.subrange(from as int, to as int),
{
    let mut out: Vec<u8> = Vec::new();
    let mut i: usize = from;
    while i < to
        invariant
            from <= i <= to <= slice@.len(),
            out@.len() == i - from,
            forall|j: int| 0 <= j < out@.len() ==> out@[j] == slice@[from + j],
        decreases to - i,
    {
        out.push(slice[i]);
        i = i + 1;
    }
    proof {
        assert(out@ =~= slice@.subrange(from as int, to as int));
    }
    out
}

/// The decimal digit character for a value below ten.
pub open spec fn spec_digit_char(d: int) -> char {
    if d == 0 {
        '0'
    } else if d == 1 {
        '1'
    } else if d == 2 {
        '2'
    } else if d == 3 {
        '3'
    } else if d == 4 {
        '4'
    } else if d == 5 {
        '5'
    } else if d == 6 {
        '6'
    } else if d == 7 {
        '7'
    } else if d == 8 {
        '8'
    } else {
        '9'
    }
}

/// Appends the decimal digit character for `d` to `s`.
fn push_digit(s: &mut String, d: u32)
    requires
        d < 10,
    ensures
        final(s)@ == old(s)@.push(spec_digit_char(d as int)),
{
    proof {
        reveal_strlit("0");
        reveal_strlit("1");
        reveal_strlit("2");
        reveal_strlit("3");
        reveal_strlit("4");
        reveal_strlit("5");
        reveal_strlit("6");
        reveal_strlit("7");
        reveal_strlit("8");
        reveal_strlit("9");
    }
    let digit: &str = if d == 0 {
        "0"
    } else if d == 1 {
        "1"
    } else if d == 2 {
        "2"
    } else if d == 3 {
        "3"
    } else if d == 4 {
        "4"
    } else if d == 5 {
        "5"
    } else if d == 6 {
        "6"
    } else if d == 7 {
        "7"
    } else if d == 8 {
        "8"
    } else {
        "9"
    };
    s.append(digit);
    proof {
        assert(final(s)@ =~= old(s)@.push(spec_digit_char(d as int)));
    }
}

/// Renders a value below one million as exactly six decimal digits,
/// zero-padded on the left.
pub fn format_six_digits(n: u32) -> (r: String)
    requires
        n < 1000000,
    ensures
        r@.len() == 6,
        forall|i: int| 0 <= i < 6 ==> '0' <= #[trigger] r@[i] <= '9',
        r@[0] == spec_digit_char(n as int / 100000),
        r@[5] == spec_digit_char(n as int % 10),
    {
    let mut s = String::new();
    push_digit(&mut s, n / 100000);
    push_digit(&mut s, (n / 10000) % 10);
    push_digit(&mut s, (n / 1000) % 10);
    push_digit(&mut s, (n / 100) % 10);
    push_digit(&mut s, (n / 10) % 10);
    push_digit(&mut s, n % 10);
    proof {
        assert forall|i: int| 0 <= i < 6 implies '0' <= #[trigger] s@[i] <= '9' by {
            assert(forall|d: int| 0 <= d < 10 ==> '0' <= #[trigger] spec_digit_char(d) <= '9');
        }
    }
    s
}

/// The engine's encryption public key, base64-encoded.
pub fn get_public_key(manager: &CryptoManager) -> (r: Result<String, Error>)
    ensures
        r matches Ok(s) && s@ == b64_of(manager.enc_public()),
{
    Ok(manager.get_public_key_base64())
}

/// Detached signature over the UTF-8 bytes of `data`, base64-encoded.  The
/// public-key argument is not consulted; the engine signs with its own
/// secret key, as the peer expects.
pub fn sign(manager: &CryptoManager, data: &str, _public_key: &str) -> (r: Result<String, Error>)
    requires
        manager.wf(),
    ensures
        r matches Ok(s) && s@ == b64_of(sign_bytes(data.spec_bytes(), manager.sign_secret())),
{
    let signature = manager.sign(data.as_bytes());
    Ok(b64_encode(signature.as_slice()))
}

/// Verifies a base64-encoded detached signature over the UTF-8 bytes of
/// `data` under a base64-encoded signing public key.  Fails exactly when
/// the signature is not base64, the key does not parse, or the decoded
/// signature has the wrong shape.
pub fn verify_signature(data: &str, signature: &str, public_key: &str) -> (r: Result<bool, Error>)
    ensures
        (match r {
            Ok(b) => {
                &&& (b64_decoded(signature@) matches Some(sig) && sig.len() == SIGNATURE_LEN
                    && (sig[63] & 0xe0) == 0)
                &&& (b64_decoded(public_key@) matches Some(k) && k.len() == SIGN_PUBLIC_LEN)
                &&& (match (b64_decoded(signature@), b64_decoded(public_key@)) {
                    (Some(sig), Some(k)) => b == verify_ok(sig, data.spec_bytes(), k),
                    _ => false,
                })
            },
            Err(e) => e matches Error::Crypto(_),
        }),
{
    let sig = match b64_decode_vec(signature) {
        Some(v) => v,
        None => {
            return Err(Error::Crypto("signature is not valid base64".to_owned()));
        },
    };
    let pk = match SignKeyPair::public_key_from_base64(public_key) {
        Ok(k) => k,
        Err(e) => {
            return Err(e);
        },
    };
    if sig.len() != SIGNATURE_LEN {
        return Err(Error::Crypto("invalid signature format".to_owned()));
    }
    if (sig[63] & 0xe0) != 0 {
        return Err(Error::Crypto("invalid signature format".to_owned()));
    }
    Ok(verify_detached(sig.as_slice(), data.as_bytes(), pk.as_slice()))
}

/// Encrypts `data` for the device over the engine's shared-key table.
pub fn encrypt(manager: &CryptoManager, device_id: &str, data: &[u8]) -> (r: Result<Vec<u8>, Error>)
    requires
        manager.wf(),
        data@.len() + NONCE_LEN + MAC_LEN <= usize::MAX,
    ensures
        r is Ok <==> manager.has_shared_key(device_id@),
        r matches Err(e) ==> e matches Error::Crypto(_),
        r matches Ok(c) ==> decrypt_model(c@, manager.symmetric_key(device_id@)) == Some(data@),
{
    manager.encrypt(device_id, data)
}

/// Decrypts a nonce-prefixed ciphertext from the device over the engine's
/// shared-key table.
pub fn decrypt(manager: &CryptoManager, device_id: &str, encrypted_data: &[u8]) -> (r: Result<
    Vec<u8>,
    Error,
>)
    requires
        manager.wf(),
    ensures
        encrypted_data@.len() < NONCE_LEN ==> (r matches Err(e) && e matches Error::Crypto(_)),
        encrypted_data@.len() >= NONCE_LEN && !manager.has_shared_key(device_id@) ==> (r matches
            Err(e) && e matches Error::Crypto(m) && m@ == "no shared key for device"@),
        encrypted_data@.len() >= NONCE_LEN && manager.has_shared_key(device_id@) ==> (match
            decrypt_model(encrypted_data@, manager.symmetric_key(device_id@)) {
            Some(m) => r matches Ok(v) && v@ == m,
            None => r matches Err(e) && e matches Error::Crypto(_),
        }),
{
    manager.decrypt(device_id, encrypted_data)
}

/// Parses a base64-encoded remote public key and stores the shared-key
/// entry for the device.  Fails exactly when the key does not parse; the
/// table is then left as it was.
pub fn generate_shared_key(
    manager: &mut CryptoManager,
    device_id: &str,
    remote_public_key_base64: &str,
) -> (r: Result<(), Error>)
    requires
        old(manager).wf(),
    ensures
        final(manager).wf(),
        (match b64_decoded(remote_public_key_base64@) {
            Some(k) => {
                if k.len() == KEY_LEN {
                    &&& r is Ok
                    &&& (final(manager).shared_entry(device_id@) matches Some(e)
                        && e.remote_public_key@ == k && e.local_secret_key@ == old(
                        manager,
                    ).enc_secret())
                    &&& (forall|id: Seq<char>|
                        id != device_id@ ==> final(manager).shared_entry(id) == old(
                            manager,
                        ).shared_entry(id))
                    &&& final(manager).enc_public() == old(manager).enc_public()
                    &&& final(manager).enc_secret() == old(manager).enc_secret()
                    &&& final(manager).sign_public() == old(manager).sign_public()
                    &&& final(manager).sign_secret() == old(manager).sign_secret()
                } else {
                    (r matches Err(e) && e matches Error::Crypto(_)) && *final(manager) == *old(
                        manager,
                    )
                }
            },
            None => (r matches Err(e) && e matches Error::Crypto(_)) && *final(manager) == *old(
                manager,
            ),
        }),
{
    let remote_public_key = match KeyPair::public_key_from_base64(remote_public_key_base64) {
        Ok(k) => k,
        Err(e) => {
            return Err(e);
        },
    };
    manager.generate_shared_key(device_id, &remote_public_key)
}

/// Round trip of the symmetric channel: for every plaintext and every
/// device with a derived shared key, decrypting the encryption of the
/// plaintext under that device's key gives exactly the plaintext back.
pub fn encrypt_decrypt_round_trip(manager: &CryptoManager, device_id: &str, data: &[u8]) -> (r:
    Vec<u8>)
    requires
        manager.wf(),
        manager.has_shared_key(device_id@),
        data@.len() + NONCE_LEN + MAC_LEN <= usize::MAX,
    ensures
        r@ == data@,
{
    let c = match manager.encrypt(device_id, data) {
        Ok(c) => c,
        Err(_) => {
            return vstd::pervasive::unreached();
        },
    };
    match manager.decrypt(device_id, c.as_slice()) {
        Ok(p) => p,
        Err(_) => vstd::pervasive::unreached(),
    }
}

proof fn lemma_find_push_other(
    s: Seq<(String, SharedKeyEntry)>,
    item: (String, SharedKeyEntry),
    id: Seq<char>,
)
    requires
        item.0@ != id,
    ensures
        spec_find_entry(s.push(item), id) == spec_find_entry(s, id),
    decreases s.len(),
{
    let p = s.push(item);
    if s.len() == 0 {
        assert(p[0] == item);
        assert(p.drop_first() =~= Seq::<(String, SharedKeyEntry)>::empty());
        assert(spec_find_entry(p.drop_first(), id) is None);
    } else {
        assert(p[0] == s[0]);
        if s[0].0@ != id {
            assert(p.drop_first() =~= s.drop_first().push(item));
            lemma_find_push_other(s.drop_first(), item, id);
        }
    }
}

/// Replacing a table row in place, keeping its device id, changes no other
/// id's lookup.
proof fn lemma_update_effect(
    olds: Seq<(String, SharedKeyEntry)>,
    news: Seq<(String, SharedKeyEntry)>,
    i: int,
    id: Seq<char>,
)
    requires
        0 <= i < olds.len(),
        news.len() == olds.len(),
        forall|j: int| 0 <= j < olds.len() && j != i ==> news[j] == olds[j],
        news[i].0@ == olds[i].0@,
        id != olds[i].0@,
    ensures
        spec_find_entry(news, id) == spec_find_entry(olds, id),
    decreases olds.len(),
{
    if i == 0 {
        assert(news[0].0@ == olds[0].0@);
        assert(news.drop_first() =~= olds.drop_first());
    } else {
        assert(news[0] == olds[0]);
        if news[0].0@ != id {
            assert(forall|j: int|
                0 <= j < olds.drop_first().len() && j != i - 1 ==> news.drop_first()[j]
                    == olds.drop_first()[j]);
            assert(news.drop_first()[i - 1].0@ == olds.drop_first()[i - 1].0@);
            lemma_update_effect(olds.drop_first(), news.drop_first(), i - 1, id);
        }
    }
}

} // verus!
