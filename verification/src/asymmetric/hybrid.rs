//! The hybrid composite: a classical and a post-quantum system side by side,
//! so that a plaintext stays confidential as long as one of the two holds.
//!
//! To encrypt, two random 32-byte shares are drawn. The classical system
//! encrypts the first, the post-quantum system the second. The symmetric key
//! is the bytewise exclusive-or of the shares, which does not depend on their
//! order and which neither share alone gives away. The plaintext is sealed
//! under that key with AES-256-GCM; the associated data of the seal holds both
//! encrypted shares in front of the caller's own, so a change to either share
//! or to the caller's data is a change to what the seal authenticates. The
//! envelope is the two encrypted shares and the sealed bytes, joined.

use crate::asymmetric::traits::AsymmetricCryptographicSystem;
use crate::common::errors::{decryption_failure, is_decryption_failure, Error};
use crate::common::framing::{
    join, join_spec, lemma_join_is_injective, lemma_split_inverts_join, split, split_spec,
};
use crate::common::random::random_bytes;
use crate::common::utils::{associated, associated_or, zeroize, Base64String, CryptoConfig, SystemTag};
use crate::symmetric::aead::{within_limits, NONCE_SIZE, TAG_SIZE};
use crate::symmetric::systems::aes_gcm;
use crate::symmetric::systems::aes_gcm::{AesGcmKey, AesGcmSystem};
use core::marker::PhantomData;
use vstd::prelude::*;
use vstd::string::*;

verus! {

/// Length of each of the two shares of the symmetric key, in bytes.
pub const SHARE_SIZE: usize = 32;

/// The hybrid of a classical system `C` and a post-quantum system `P`.
pub struct HybridCryptoSystem<C, P> {
    classical: PhantomData<C>,
    post_quantum: PhantomData<P>,
}

/// The public keys of both systems.
pub struct HybridPublicKey<C: AsymmetricCryptographicSystem, P: AsymmetricCryptographicSystem> {
    pub classical: C::PublicKey,
    pub post_quantum: P::PublicKey,
}

/// The private keys of both systems.
pub struct HybridPrivateKey<C: AsymmetricCryptographicSystem, P: AsymmetricCryptographicSystem> {
    pub classical: C::PrivateKey,
    pub post_quantum: P::PrivateKey,
}

/// An envelope as a plain value.
pub struct EnvelopeView {
    pub classical_part: Seq<u8>,
    pub post_quantum_part: Seq<u8>,
    pub sealed: Seq<u8>,
}

/// A hybrid ciphertext taken apart: the share that the classical system
/// encrypted, the share that the post-quantum system encrypted, and the
/// plaintext sealed under the key that the two shares make.
#[derive(Debug, Clone, PartialEq, Eq)]
pub struct HybridEnvelope {
    pub classical_part: Vec<u8>,
    pub post_quantum_part: Vec<u8>,
    pub sealed: Vec<u8>,
}

impl View for HybridEnvelope {
    type V = EnvelopeView;

    open spec fn view(&self) -> EnvelopeView {
        EnvelopeView {
            classical_part: self.classical_part@,
            post_quantum_part: self.post_quantum_part@,
            sealed: self.sealed@,
        }
    }
}

/// Whether an envelope has all it needs: both encrypted shares, and sealed
/// bytes long enough for a nonce and an integrity tag.
pub open spec fn is_complete(envelope: EnvelopeView) -> bool {
    &&& envelope.classical_part.len() > 0
    &&& envelope.post_quantum_part.len() > 0
    &&& envelope.sealed.len() >= NONCE_SIZE + TAG_SIZE
}

/// The written form of an envelope.
pub open spec fn envelope_bytes_spec(envelope: EnvelopeView) -> Seq<u8> {
    join_spec(envelope.classical_part, join_spec(envelope.post_quantum_part, envelope.sealed))
}

/// The envelope that bytes hold. `None` where the bytes do not split into
/// three parts or the envelope is not complete.
pub open spec fn parse_envelope_spec(bytes: Seq<u8>) -> Option<EnvelopeView> {
    match split_spec(bytes) {
        Some(outer) => match split_spec(outer.1) {
            Some(inner) => {
                let envelope = EnvelopeView {
                    classical_part: outer.0,
                    post_quantum_part: inner.0,
                    sealed: inner.1,
                };
                if is_complete(envelope) {
                    Some(envelope)
                } else {
                    None
                }
            },
            None => None,
        },
        None => None,
    }
}

/// The associated data that the seal authenticates: both encrypted shares,
/// then the caller's associated data.
pub open spec fn bound_aad_spec(classical_part: Seq<u8>, post_quantum_part: Seq<u8>, aad: Seq<u8>) -> Seq<u8> {
    join_spec(classical_part, join_spec(post_quantum_part, aad))
}

/// The symmetric key that two shares make: their bytewise exclusive-or.
pub open spec fn combine_spec(share_a: Seq<u8>, share_b: Seq<u8>) -> Seq<u8> {
    Seq::new(share_a.len(), |i: int| share_a[i] ^ share_b[i])
}

/// The order of the shares does not matter.
pub proof fn lemma_combine_commutes(share_a: Seq<u8>, share_b: Seq<u8>)
    requires
        share_a.len() == share_b.len(),
    ensures
        combine_spec(share_a, share_b) == combine_spec(share_b, share_a),
{
    assert forall|i: int| 0 <= i < share_a.len() implies share_a[i] ^ share_b[i] == share_b[i]
        ^ share_a[i] by {
        let x = share_a[i];
        let y = share_b[i];
        assert(x ^ y == y ^ x) by (bit_vector);
    }
}

/// Either share is found again from the key and the other share.
pub proof fn lemma_combine_recovers_share(share_a: Seq<u8>, share_b: Seq<u8>)
    requires
        share_a.len() == share_b.len(),
    ensures
        combine_spec(combine_spec(share_a, share_b), share_b) == share_a,
{
    assert forall|i: int| 0 <= i < share_a.len() implies (share_a[i] ^ share_b[i]) ^ share_b[i]
        == share_a[i] by {
        let x = share_a[i];
        let y = share_b[i];
        assert((x ^ y) ^ y == x) by (bit_vector);
    }
}

/// Different shares make different keys: with one share held fixed, the key
/// determines the other.
pub proof fn lemma_combine_is_injective(share_a: Seq<u8>, other_a: Seq<u8>, share_b: Seq<u8>)
    requires
        share_a.len() == share_b.len(),
        other_a.len() == share_b.len(),
        combine_spec(share_a, share_b) == combine_spec(other_a, share_b),
    ensures
        share_a == other_a,
{
    lemma_combine_recovers_share(share_a, share_b);
    lemma_combine_recovers_share(other_a, share_b);
}

/// The seal's associated data tells its parts apart: a change to either
/// encrypted share, or to the caller's associated data, changes it.
pub proof fn lemma_bound_aad_is_injective(
    part_a: Seq<u8>,
    part_b: Seq<u8>,
    aad: Seq<u8>,
    other_a: Seq<u8>,
    other_b: Seq<u8>,
    other_aad: Seq<u8>,
)
    requires
        part_a.len() <= u64::MAX,
        part_b.len() <= u64::MAX,
        other_a.len() <= u64::MAX,
        other_b.len() <= u64::MAX,
        bound_aad_spec(part_a, part_b, aad) == bound_aad_spec(other_a, other_b, other_aad),
    ensures
        part_a == other_a,
        part_b == other_b,
        aad == other_aad,
{
    lemma_join_is_injective(part_a, join_spec(part_b, aad), other_a, join_spec(other_b, other_aad));
    lemma_join_is_injective(part_b, aad, other_b, other_aad);
}

/// Reading inverts writing: the written form of a complete envelope reads
/// back as the same envelope.
pub proof fn lemma_parse_inverts_write(envelope: EnvelopeView)
    requires
        is_complete(envelope),
        envelope.classical_part.len() <= u64::MAX,
        envelope.post_quantum_part.len() <= u64::MAX,
    ensures
        parse_envelope_spec(envelope_bytes_spec(envelope)) == Some(envelope),
{
    lemma_split_inverts_join(envelope.post_quantum_part, envelope.sealed);
    lemma_split_inverts_join(
        envelope.classical_part,
        join_spec(envelope.post_quantum_part, envelope.sealed),
    );
}

/// The symmetric key that two shares of equal length make.
pub fn combine(share_a: &[u8], share_b: &[u8]) -> (key: Vec<u8>)
    requires
        share_a@.len() == share_b@.len(),
    ensures
        key@ == combine_spec(share_a@, share_b@),
{
    let mut key: Vec<u8> = Vec::new();
    let mut i: usize = 0;
    while i < share_a.len()
        invariant
            i <= share_a@.len(),
            share_a@.len() == share_b@.len(),
            key@.len() == i,
            forall|j: int| 0 <= j < i ==> key@[j] == share_a@[j] ^ share_b@[j],
        decreases share_a@.len() - i,
    {
        key.push(share_a[i] ^ share_b[i]);
        i += 1;
    }
    key
}

/// The associated data that the seal authenticates.
pub fn bound_aad(classical_part: &[u8], post_quantum_part: &[u8], aad: &[u8]) -> (bound: Vec<u8>)
    ensures
        bound@ == bound_aad_spec(classical_part@, post_quantum_part@, aad@),
{
    let inner = join(post_quantum_part, aad);
    join(classical_part, inner.as_slice())
}

impl HybridEnvelope {
    /// The envelope in its written form.
    pub fn to_bytes(&self) -> (bytes: Vec<u8>)
        ensures
            bytes@ == envelope_bytes_spec(self@),
            is_complete(self@) ==> parse_envelope_spec(bytes@) == Some(self@),
    {
        let a_len = self.classical_part.len();
        let b_len = self.post_quantum_part.len();
        proof {
            if is_complete(self@) {
                lemma_parse_inverts_write(self@);
            }
        }
        let inner = join(self.post_quantum_part.as_slice(), self.sealed.as_slice());
        join(self.classical_part.as_slice(), inner.as_slice())
    }

    /// Reads an envelope from its written form. Bytes that lack a part fail
    /// with the error of every failed decryption.
    pub fn from_bytes(bytes: &[u8]) -> (res: Result<HybridEnvelope, Error>)
        ensures
            match parse_envelope_spec(bytes@) {
                Some(envelope) => res matches Ok(out) && out@ == envelope,
                None => res matches Err(e) && is_decryption_failure(e),
            },
    {
        let outer = match split(bytes) {
            Some(outer) => outer,
            None => {
                return Err(decryption_failure());
            },
        };
        let inner = match split(outer.1) {
            Some(inner) => inner,
            None => {
                return Err(decryption_failure());
            },
        };
        if outer.0.len() == 0 || inner.0.len() == 0 || inner.1.len() < NONCE_SIZE + TAG_SIZE {
            return Err(decryption_failure());
        }
        let mut classical_part: Vec<u8> = Vec::new();
        classical_part.extend_from_slice(outer.0);
        let mut post_quantum_part: Vec<u8> = Vec::new();
        post_quantum_part.extend_from_slice(inner.0);
        let mut sealed: Vec<u8> = Vec::new();
        sealed.extend_from_slice(inner.1);
        proof {
            assert(classical_part@ == outer.0@);
            assert(post_quantum_part@ == inner.0@);
            assert(sealed@ == inner.1@);
        }
        Ok(HybridEnvelope { classical_part, post_quantum_part, sealed })
    }
}

/// The share that a component's decryption gave: nothing, where it failed.
pub open spec fn share_of(opened: Option<Seq<u8>>) -> Seq<u8> {
    match opened {
        Some(share) => share,
        None => Seq::empty(),
    }
}

/// The plaintext in an envelope, given the two shares: both must be 32 bytes
/// long, and the seal must open under the key they make and the associated
/// data that binds the envelope's parts. `None` otherwise.
pub open spec fn open_with_shares_spec(
    share_a: Seq<u8>,
    share_b: Seq<u8>,
    envelope: EnvelopeView,
    aad: Seq<u8>,
) -> Option<Seq<u8>> {
    if share_a.len() == SHARE_SIZE && share_b.len() == SHARE_SIZE {
        aes_gcm::open_spec(
            combine_spec(share_a, share_b),
            envelope.sealed,
            bound_aad_spec(envelope.classical_part, envelope.post_quantum_part, aad),
        )
    } else {
        None
    }
}

/// The envelope that sealing makes, given the two shares, the shares as the
/// two systems encrypted them, and the nonce of the seal. `None` where a
/// share is not 32 bytes long, an encrypted share is empty, the nonce has
/// the wrong length, or the cipher refuses.
pub open spec fn seal_with_shares_spec(
    share_a: Seq<u8>,
    share_b: Seq<u8>,
    part_a: Seq<u8>,
    part_b: Seq<u8>,
    nonce: Seq<u8>,
    plaintext: Seq<u8>,
    aad: Seq<u8>,
) -> Option<EnvelopeView> {
    if share_a.len() == SHARE_SIZE && share_b.len() == SHARE_SIZE && part_a.len() > 0
        && part_b.len() > 0 {
        match aes_gcm::seal_spec(
            combine_spec(share_a, share_b),
            nonce,
            plaintext,
            bound_aad_spec(part_a, part_b, aad),
        ) {
            Some(sealed) => Some(
                EnvelopeView { classical_part: part_a, post_quantum_part: part_b, sealed },
            ),
            None => None,
        }
    } else {
        None
    }
}

/// Whether `out` is the written form of an envelope that sealing makes of
/// these shares, this nonce, this plaintext and this associated data, for
/// some way in which the two systems encrypted the shares.
pub open spec fn is_sealed_with_shares(
    out: Seq<u8>,
    share_a: Seq<u8>,
    share_b: Seq<u8>,
    nonce: Seq<u8>,
    plaintext: Seq<u8>,
    aad: Seq<u8>,
) -> bool {
    exists|part_a: Seq<u8>, part_b: Seq<u8>|
        (#[trigger] seal_with_shares_spec(
            share_a,
            share_b,
            part_a,
            part_b,
            nonce,
            plaintext,
            aad,
        )) matches Some(envelope) && out == envelope_bytes_spec(envelope)
}

/// Seals `plaintext` under the key that the two shares make, with the nonce
/// given, and puts the envelope together. `part_a` and `part_b` are the
/// shares as the two systems encrypted them.
///
/// Fails with `EncryptionFailed` exactly when a share is not 32 bytes long,
/// an encrypted share is empty, the nonce is not 12 bytes long, or the
/// plaintext or the bound associated data exceeds the cipher's limit. The
/// envelope that comes out opens, with the same shares and associated data,
/// to `plaintext`.
pub fn seal_with_shares(
    share_a: &[u8],
    share_b: &[u8],
    part_a: Vec<u8>,
    part_b: Vec<u8>,
    nonce: &[u8],
    plaintext: &[u8],
    additional_data: Option<&[u8]>,
) -> (res: Result<HybridEnvelope, Error>)
    ensures
        match seal_with_shares_spec(
            share_a@,
            share_b@,
            part_a@,
            part_b@,
            nonce@,
            plaintext@,
            associated(additional_data),
        ) {
            Some(envelope) => res matches Ok(out) && out@ == envelope,
            None => res matches Err(e) && e is EncryptionFailed,
        },
        res is Ok <==> {
            &&& share_a@.len() == SHARE_SIZE
            &&& share_b@.len() == SHARE_SIZE
            &&& part_a@.len() > 0
            &&& part_b@.len() > 0
            &&& nonce@.len() == NONCE_SIZE
            &&& within_limits(
                plaintext@,
                bound_aad_spec(part_a@, part_b@, associated(additional_data)),
            )
        },
        res matches Ok(envelope) ==> is_complete(envelope@) && open_with_shares_spec(
            share_a@,
            share_b@,
            envelope@,
            associated(additional_data),
        ) == Some(plaintext@),
{
    if share_a.len() != SHARE_SIZE || share_b.len() != SHARE_SIZE {
        return Err(Error::EncryptionFailed(String::from_str("a key share must be 32 bytes long")));
    }
    if part_a.len() == 0 || part_b.len() == 0 {
        return Err(Error::EncryptionFailed(String::from_str("a component gave no ciphertext")));
    }
    let secret = combine(share_a, share_b);
    let mut key = match AesGcmKey::from_bytes(secret) {
        Ok(key) => key,
        Err(e) => {
            return Err(Error::EncryptionFailed(e.to_string()));
        },
    };
    let empty: Vec<u8> = Vec::new();
    let aad = associated_or(additional_data, empty.as_slice());
    let bound = bound_aad(part_a.as_slice(), part_b.as_slice(), aad);
    let sealed = AesGcmSystem::encrypt_with_nonce(&key, nonce, plaintext, Some(bound.as_slice()));
    key.erase();
    match sealed {
        Ok(sealed) => Ok(
            HybridEnvelope { classical_part: part_a, post_quantum_part: part_b, sealed: sealed.0 },
        ),
        Err(e) => Err(e),
    }
}

/// Opens an envelope, given the two shares as the two systems decrypted
/// them. Every failure is the error of every failed decryption.
pub fn open_with_shares(
    share_a: &[u8],
    share_b: &[u8],
    envelope: &HybridEnvelope,
    additional_data: Option<&[u8]>,
) -> (res: Result<Vec<u8>, Error>)
    ensures
        match open_with_shares_spec(share_a@, share_b@, envelope@, associated(additional_data)) {
            Some(plaintext) => res matches Ok(out) && out@ == plaintext,
            None => res matches Err(e) && is_decryption_failure(e),
        },
{
    if share_a.len() != SHARE_SIZE || share_b.len() != SHARE_SIZE {
        return Err(decryption_failure());
    }
    let secret = combine(share_a, share_b);
    let mut key = match AesGcmKey::from_bytes(secret) {
        Ok(key) => key,
        Err(_) => {
            return Err(decryption_failure());
        },
    };
    let empty: Vec<u8> = Vec::new();
    let aad = associated_or(additional_data, empty.as_slice());
    let bound = bound_aad(
        envelope.classical_part.as_slice(),
        envelope.post_quantum_part.as_slice(),
        aad,
    );
    let opened = AesGcmSystem::decrypt_bytes(&key, envelope.sealed.as_slice(), Some(bound.as_slice()));
    key.erase();
    opened
}

impl<C: AsymmetricCryptographicSystem, P: AsymmetricCryptographicSystem> HybridCryptoSystem<C, P> {
    /// Encrypts `plaintext` with the two shares and the nonce of the seal
    /// given instead of drawn. All three must be fresh and random: `encrypt`
    /// sees to that, other callers have to see to it themselves.
    ///
    /// What comes out is an envelope sealed with exactly these shares and
    /// this nonce: its two parts open, under the private halves, to the two
    /// shares given, and the whole decrypts, under the private halves and the
    /// same associated data, to `plaintext`. Every failure is
    /// `EncryptionFailed`.
    pub fn encrypt_with_shares(
        public_key: &HybridPublicKey<C, P>,
        share_a: &[u8],
        share_b: &[u8],
        nonce: &[u8],
        plaintext: &[u8],
        additional_data: Option<&[u8]>,
    ) -> (res: Result<Base64String, Error>)
        ensures
            res matches Ok(out) ==> forall|private_key: HybridPrivateKey<C, P>|
                Self::is_key_pair(public_key, &private_key) ==> #[trigger] Self::open_spec(
                    &private_key,
                    out@,
                    associated(additional_data),
                ) == Some(plaintext@),
            res matches Ok(out) ==> is_sealed_with_shares(
                out@,
                share_a@,
                share_b@,
                nonce@,
                plaintext@,
                associated(additional_data),
            ),
            res matches Ok(out) ==> (parse_envelope_spec(out@) matches Some(envelope)
                && forall|private_key: HybridPrivateKey<C, P>| #[trigger]
                    Self::is_key_pair(public_key, &private_key) ==> C::open_spec(
                        &private_key.classical,
                        envelope.classical_part,
                        Seq::empty(),
                    ) == Some(share_a@) && P::open_spec(
                        &private_key.post_quantum,
                        envelope.post_quantum_part,
                        Seq::empty(),
                    ) == Some(share_b@)),
            res matches Err(e) ==> e is EncryptionFailed,
    {
        let part_a = match C::encrypt(&public_key.classical, share_a, None) {
            Ok(part) => part,
            Err(e) => {
                return Err(e);
            },
        };
        let part_b = match P::encrypt(&public_key.post_quantum, share_b, None) {
            Ok(part) => part,
            Err(e) => {
                return Err(e);
            },
        };
        let ghost sealed_a = part_a@;
        let ghost sealed_b = part_b@;
        let envelope = match seal_with_shares(
            share_a,
            share_b,
            part_a.0,
            part_b.0,
            nonce,
            plaintext,
            additional_data,
        ) {
            Ok(envelope) => envelope,
            Err(e) => {
                return Err(e);
            },
        };
        let bytes = envelope.to_bytes();
        proof {
            let none: Option<&[u8]> = None;
            assert forall|private_key: HybridPrivateKey<C, P>|
                Self::is_key_pair(public_key, &private_key) implies #[trigger] Self::open_spec(
                &private_key,
                bytes@,
                associated(additional_data),
            ) == Some(plaintext@) by {
                assert(C::open_spec(&private_key.classical, sealed_a, associated(none)) == Some(
                    share_a@,
                ));
                assert(P::open_spec(&private_key.post_quantum, sealed_b, associated(none))
                    == Some(share_b@));
            }
        }
        Ok(Base64String::from(bytes))
    }
}

impl<
    C: AsymmetricCryptographicSystem,
    P: AsymmetricCryptographicSystem,
> AsymmetricCryptographicSystem for HybridCryptoSystem<C, P> {
    type PublicKey = HybridPublicKey<C, P>;

    type PrivateKey = HybridPrivateKey<C, P>;

    open spec fn is_key_pair(public_key: &Self::PublicKey, private_key: &Self::PrivateKey) -> bool {
        &&& C::is_key_pair(&public_key.classical, &private_key.classical)
        &&& P::is_key_pair(&public_key.post_quantum, &private_key.post_quantum)
    }

    open spec fn open_spec(private_key: &Self::PrivateKey, ciphertext: Seq<u8>, aad: Seq<u8>) -> Option<
        Seq<u8>,
    > {
        match parse_envelope_spec(ciphertext) {
            Some(envelope) => open_with_shares_spec(
                share_of(
                    C::open_spec(&private_key.classical, envelope.classical_part, Seq::empty()),
                ),
                share_of(
                    P::open_spec(
                        &private_key.post_quantum,
                        envelope.post_quantum_part,
                        Seq::empty(),
                    ),
                ),
                envelope,
                aad,
            ),
            None => None,
        }
    }

    open spec fn public_key_spec(bytes: Seq<u8>) -> Option<Self::PublicKey> {
        match split_spec(bytes) {
            Some(parts) => match C::public_key_spec(parts.0) {
                Some(classical) => match P::public_key_spec(parts.1) {
                    Some(post_quantum) => Some(HybridPublicKey { classical, post_quantum }),
                    None => None,
                },
                None => None,
            },
            None => None,
        }
    }

    open spec fn private_key_spec(bytes: Seq<u8>) -> Option<Self::PrivateKey> {
        match split_spec(bytes) {
            Some(parts) => match C::private_key_spec(parts.0) {
                Some(classical) => match P::private_key_spec(parts.1) {
                    Some(post_quantum) => Some(HybridPrivateKey { classical, post_quantum }),
                    None => None,
                },
                None => None,
            },
            None => None,
        }
    }

    open spec fn private_tag_spec() -> SystemTag {
        SystemTag::HybridBundle
    }

    /// A key pair of each system, generated independently.
    fn generate_keypair(config: &CryptoConfig) -> (res: Result<
        (Self::PublicKey, Self::PrivateKey),
        Error,
    >) {
        let classical = match C::generate_keypair(config) {
            Ok(pair) => pair,
            Err(e) => {
                return Err(e);
            },
        };
        let post_quantum = match P::generate_keypair(config) {
            Ok(pair) => pair,
            Err(e) => {
                return Err(e);
            },
        };
        Ok(
            (
                HybridPublicKey { classical: classical.0, post_quantum: post_quantum.0 },
                HybridPrivateKey { classical: classical.1, post_quantum: post_quantum.1 },
            ),
        )
    }

    /// Encrypts `plaintext` under two fresh random shares and a fresh random
    /// nonce.
    fn encrypt(
        public_key: &Self::PublicKey,
        plaintext: &[u8],
        additional_data: Option<&[u8]>,
    ) -> (res: Result<Base64String, Error>) {
        let mut share_a = match random_bytes(SHARE_SIZE) {
            Ok(share) => share,
            Err(e) => {
                return Err(Error::EncryptionFailed(e.to_string()));
            },
        };
        let mut share_b = match random_bytes(SHARE_SIZE) {
            Ok(share) => share,
            Err(e) => {
                zeroize(&mut share_a);
                return Err(Error::EncryptionFailed(e.to_string()));
            },
        };
        let nonce = match random_bytes(NONCE_SIZE) {
            Ok(nonce) => nonce,
            Err(e) => {
                zeroize(&mut share_a);
                zeroize(&mut share_b);
                return Err(Error::EncryptionFailed(e.to_string()));
            },
        };
        let res = Self::encrypt_with_shares(
            public_key,
            share_a.as_slice(),
            share_b.as_slice(),
            nonce.as_slice(),
            plaintext,
            additional_data,
        );
        zeroize(&mut share_a);
        zeroize(&mut share_b);
        res
    }

    /// Reads the envelope, which fails before anything is decrypted where a
    /// part is missing; lets both systems decrypt their share, whatever the
    /// other did; and opens the seal.
    fn decrypt_bytes(
        private_key: &Self::PrivateKey,
        ciphertext: &[u8],
        additional_data: Option<&[u8]>,
    ) -> (res: Result<Vec<u8>, Error>) {
        let envelope = match HybridEnvelope::from_bytes(ciphertext) {
            Ok(envelope) => envelope,
            Err(e) => {
                return Err(e);
            },
        };
        let none: Option<&[u8]> = None;
        let opened_a = C::decrypt_bytes(
            &private_key.classical,
            envelope.classical_part.as_slice(),
            none,
        );
        let opened_b = P::decrypt_bytes(
            &private_key.post_quantum,
            envelope.post_quantum_part.as_slice(),
            none,
        );
        let mut share_a = match opened_a {
            Ok(share) => share,
            Err(_) => Vec::new(),
        };
        let mut share_b = match opened_b {
            Ok(share) => share,
            Err(_) => Vec::new(),
        };
        proof {
            assert(share_a@ =~= share_of(
                C::open_spec(&private_key.classical, envelope@.classical_part, Seq::empty()),
            ));
            assert(share_b@ =~= share_of(
                P::open_spec(&private_key.post_quantum, envelope@.post_quantum_part, Seq::empty()),
            ));
        }
        let res = open_with_shares(
            share_a.as_slice(),
            share_b.as_slice(),
            &envelope,
            additional_data,
        );
        zeroize(&mut share_a);
        zeroize(&mut share_b);
        res
    }

    fn public_key_bytes(key: &Self::PublicKey) -> (bytes: Vec<u8>) {
        let classical = C::public_key_bytes(&key.classical);
        let post_quantum = P::public_key_bytes(&key.post_quantum);
        join(classical.as_slice(), post_quantum.as_slice())
    }

    fn private_key_bytes(key: &Self::PrivateKey) -> (bytes: Vec<u8>) {
        let mut classical = C::private_key_bytes(&key.classical);
        let mut post_quantum = P::private_key_bytes(&key.post_quantum);
        let bytes = join(classical.as_slice(), post_quantum.as_slice());
        zeroize(&mut classical);
        zeroize(&mut post_quantum);
        bytes
    }

    fn public_key_from_bytes(bytes: &[u8]) -> (res: Result<Self::PublicKey, Error>) {
        let parts = match split(bytes) {
            Some(parts) => parts,
            None => {
                return Err(Error::KeyImportFailed(String::from_str("key bundle is malformed")));
            },
        };
        let classical = match C::public_key_from_bytes(parts.0) {
            Ok(key) => key,
            Err(e) => {
                return Err(e);
            },
        };
        let post_quantum = match P::public_key_from_bytes(parts.1) {
            Ok(key) => key,
            Err(e) => {
                return Err(e);
            },
        };
        Ok(HybridPublicKey { classical, post_quantum })
    }

    fn private_key_from_bytes(bytes: &[u8]) -> (res: Result<Self::PrivateKey, Error>) {
        let parts = match split(bytes) {
            Some(parts) => parts,
            None => {
                return Err(Error::KeyImportFailed(String::from_str("key bundle is malformed")));
            },
        };
        let classical = match C::private_key_from_bytes(parts.0) {
            Ok(key) => key,
            Err(e) => {
                return Err(e);
            },
        };
        let post_quantum = match P::private_key_from_bytes(parts.1) {
            Ok(key) => key,
            Err(e) => {
                return Err(e);
            },
        };
        Ok(HybridPrivateKey { classical, post_quantum })
    }

    fn private_tag() -> (tag: SystemTag) {
        SystemTag::HybridBundle
    }
}

} // verus!
