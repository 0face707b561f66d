//! The key rotation manager: for each key identity, the chain of its
//! versions. It alone writes that mapping.
//!
//! Private keys rest in sealed containers. The manager opens one only to
//! hand its key out, and wipes the raw bytes before it returns. Time is an
//! argument: whoever calls reads the clock.

use crate::asymmetric::traits::AsymmetricCryptographicSystem;
use crate::common::errors::Error;
use crate::common::utils::{zeroize, CryptoConfig};
use crate::rotation::chain::{
    active_version_spec, after_request, is_due, is_expired_at, is_retrievable, is_well_formed,
    rotated, state_spec, with_expired, with_use, KeyChain, VersionState, VersionView,
};
use crate::rotation::policy::RotationPolicy;
use crate::storage::container::{open_container_spec, EncryptedKeyContainer};
use crate::symmetric::systems::aes_gcm::AesGcmKey;
use core::marker::PhantomData;
use vstd::prelude::*;
use vstd::string::*;

verus! {

/// The keys of one identity, and the policy attached to it.
struct IdentityKeys {
    name: String,
    policy: RotationPolicy,
    chain: KeyChain,
}

/// The rotation manager for keys of the system `S`.
pub struct KeyRotationManager<S> {
    policy: RotationPolicy,
    storage_key: AesGcmKey,
    entries: Vec<IdentityKeys>,
    system: PhantomData<S>,
}

/// The key pair of an active version, as handed out for use.
pub struct ActiveKey<S: AsymmetricCryptographicSystem> {
    pub version: u64,
    pub public_key: S::PublicKey,
    pub private_key: S::PrivateKey,
}

/// The public key that a version holds, if its bytes stand for one.
pub open spec fn public_key_of<S: AsymmetricCryptographicSystem>(version: VersionView) -> Option<
    S::PublicKey,
> {
    S::public_key_spec(version.public_key)
}

/// The private key that a version holds: what its container opens to under
/// the storage key, read as a key. `None` where the container does not open
/// or its content stands for no key.
pub open spec fn private_key_of<S: AsymmetricCryptographicSystem>(
    version: VersionView,
    storage_key: Seq<u8>,
) -> Option<S::PrivateKey> {
    match open_container_spec(version.sealed, storage_key) {
        Some(raw) => S::private_key_spec(raw),
        None => None,
    }
}

/// Whether a version holds a key pair of the system: its public key and the
/// private key in its container belong together.
pub open spec fn holds_key_pair<S: AsymmetricCryptographicSystem>(
    version: VersionView,
    storage_key: Seq<u8>,
) -> bool {
    match (public_key_of::<S>(version), private_key_of::<S>(version, storage_key)) {
        (Some(public_key), Some(private_key)) => S::is_key_pair(&public_key, &private_key),
        _ => false,
    }
}

/// Whether every version of a chain holds a key pair of the system.
pub open spec fn all_hold_key_pairs<S: AsymmetricCryptographicSystem>(
    chain: Seq<VersionView>,
    storage_key: Seq<u8>,
) -> bool {
    forall|i: int| 0 <= i < chain.len() ==> holds_key_pair::<S>(#[trigger] chain[i], storage_key)
}

/// Key pairs outlast every change that leaves the keys alone: where a chain
/// keeps its length and each version keeps its public key and its container,
/// every version holds a key pair afterwards as it did before.
pub proof fn lemma_key_pairs_are_kept<S: AsymmetricCryptographicSystem>(
    before: Seq<VersionView>,
    after: Seq<VersionView>,
    storage_key: Seq<u8>,
)
    requires
        all_hold_key_pairs::<S>(before, storage_key),
        after.len() == before.len(),
        forall|i: int|
            0 <= i < before.len() ==> (#[trigger] after[i]).public_key == before[i].public_key
                && after[i].sealed == before[i].sealed,
    ensures
        all_hold_key_pairs::<S>(after, storage_key),
{
    assert forall|i: int| 0 <= i < after.len() implies holds_key_pair::<S>(
        #[trigger] after[i],
        storage_key,
    ) by {
        assert(holds_key_pair::<S>(before[i], storage_key));
    }
}

impl<S: AsymmetricCryptographicSystem> KeyRotationManager<S> {
    /// The policy of every identity to which no other has been attached.
    pub closed spec fn policy_spec(&self) -> RotationPolicy {
        self.policy
    }

    /// The storage key under which the manager seals private keys.
    pub closed spec fn storage_key_spec(&self) -> Seq<u8> {
        self.storage_key@
    }

    spec fn name_at(&self, k: int) -> Seq<char> {
        self.entries@[k].name@
    }

    spec fn knows(&self, identity: Seq<char>) -> bool {
        exists|k: int| 0 <= k < self.entries@.len() && self.name_at(k) == identity
    }

    spec fn position(&self, identity: Seq<char>) -> int {
        choose|k: int| 0 <= k < self.entries@.len() && self.name_at(k) == identity
    }

    /// The chain of versions of `identity`, oldest first: empty where the
    /// identity has no key yet.
    pub closed spec fn chain(&self, identity: Seq<char>) -> Seq<VersionView> {
        if self.knows(identity) {
            self.entries@[self.position(identity)].chain@
        } else {
            Seq::empty()
        }
    }

    /// The policy attached to `identity`: the manager's own where none has
    /// been set for it.
    pub closed spec fn policy_of(&self, identity: Seq<char>) -> RotationPolicy {
        if self.knows(identity) {
            self.entries@[self.position(identity)].policy
        } else {
            self.policy
        }
    }

    /// Whether the manager is well formed: no identity is listed twice, every
    /// chain is well formed, and every version holds a key pair of the
    /// system, sealed under the manager's storage key.
    pub closed spec fn wf(&self) -> bool {
        &&& forall|j: int, k: int|
            0 <= j < k < self.entries@.len() ==> self.name_at(j) != self.name_at(k)
        &&& forall|k: int|
            0 <= k < self.entries@.len() ==> is_well_formed(
                (#[trigger] self.entries@[k]).chain@,
            ) && all_hold_key_pairs::<S>(self.entries@[k].chain@, self.storage_key@)
    }

    /// In a well-formed manager every chain is well formed and holds key
    /// pairs only.
    pub proof fn lemma_chains_are_sound(&self, identity: Seq<char>)
        requires
            self.wf(),
        ensures
            is_well_formed(self.chain(identity)),
            all_hold_key_pairs::<S>(self.chain(identity), self.storage_key_spec()),
    {
    }

    proof fn lemma_chain_at(&self, k: int)
        requires
            self.wf(),
            0 <= k < self.entries@.len(),
        ensures
            self.knows(self.name_at(k)),
            self.position(self.name_at(k)) == k,
            self.chain(self.name_at(k)) == self.entries@[k].chain@,
            self.policy_of(self.name_at(k)) == self.entries@[k].policy,
    {
        let identity = self.name_at(k);
        let found = self.position(identity);
        if found < k {
            assert(self.name_at(found) != self.name_at(k));
        } else if k < found {
            assert(self.name_at(k) != self.name_at(found));
        }
    }

    /// A manager that knows no identity yet.
    pub fn new(policy: RotationPolicy, storage_key: AesGcmKey) -> (manager: Self)
        ensures
            manager.wf(),
            manager.policy_spec() == policy,
            manager.storage_key_spec() == storage_key@,
            forall|identity: Seq<char>|
                #[trigger] manager.chain(identity) == Seq::<VersionView>::empty(),
            forall|identity: Seq<char>| #[trigger] manager.policy_of(identity) == policy,
    {
        KeyRotationManager { policy, storage_key, entries: Vec::new(), system: PhantomData }
    }

    /// The policy of every identity to which no other has been attached.
    pub fn policy(&self) -> (policy: RotationPolicy)
        ensures
            policy == self.policy_spec(),
    {
        self.policy
    }

    /// The policy attached to `identity`.
    pub fn policy_for(&self, identity: &str) -> (policy: RotationPolicy)
        requires
            self.wf(),
        ensures
            policy == self.policy_of(identity@),
    {
        match self.find(identity) {
            Some(k) => self.entries[k].policy,
            None => self.policy,
        }
    }

    /// Attaches `policy` to `identity`. No key and no other identity's
    /// policy changes.
    pub fn set_policy(&mut self, identity: &str, policy: RotationPolicy)
        requires
            old(self).wf(),
        ensures
            final(self).wf(),
            final(self).policy_spec() == old(self).policy_spec(),
            final(self).storage_key_spec() == old(self).storage_key_spec(),
            final(self).policy_of(identity@) == policy,
            forall|other: Seq<char>|
                other != identity@ ==> #[trigger] final(self).policy_of(other) == old(
                    self,
                ).policy_of(other),
            forall|any: Seq<char>| #[trigger] final(self).chain(any) == old(self).chain(any),
    {
        match self.find(identity) {
            Some(k) => {
                self.entries[k].policy = policy;
                proof {
                    Self::lemma_after_update(*old(self), *self, k as int);
                }
            },
            None => {
                self.entries.push(
                    IdentityKeys { name: String::from_str(identity), policy, chain: KeyChain::new() },
                );
                proof {
                    Self::lemma_after_push(*old(self), *self, identity@);
                }
            },
        }
    }

    fn find(&self, identity: &str) -> (found: Option<usize>)
        requires
            self.wf(),
        ensures
            match found {
                Some(k) => k < self.entries@.len() && self.name_at(k as int) == identity@
                    && self.chain(identity@) == self.entries@[k as int].chain@ && self.policy_of(
                    identity@,
                ) == self.entries@[k as int].policy,
                None => !self.knows(identity@) && self.chain(identity@) == Seq::<
                    VersionView,
                >::empty() && self.policy_of(identity@) == self.policy,
            },
    {
        let wanted = String::from_str(identity);
        let mut k: usize = 0;
        while k < self.entries.len()
            invariant
                self.wf(),
                wanted@ == identity@,
                k <= self.entries@.len(),
                forall|j: int| 0 <= j < k ==> self.name_at(j) != identity@,
            decreases self.entries@.len() - k,
        {
            if self.entries[k].name == wanted {
                proof {
                    self.lemma_chain_at(k as int);
                }
                return Some(k);
            }
            k += 1;
        }
        None
    }

    /// The number of the active version of `identity`: 0 where it has no key
    /// yet.
    pub fn active_version(&self, identity: &str) -> (version: u64)
        requires
            self.wf(),
        ensures
            version == active_version_spec(self.chain(identity@)),
    {
        match self.find(identity) {
            Some(k) => self.entries[k].chain.active_version(),
            None => 0,
        }
    }

    /// The state of version `version` of `identity`: `None` where there is
    /// no such version.
    pub fn state_of(&self, identity: &str, version: u64) -> (state: Option<VersionState>)
        requires
            self.wf(),
        ensures
            state == state_spec(self.chain(identity@), version),
    {
        match self.find(identity) {
            Some(k) => self.entries[k].chain.state_of(version),
            None => None,
        }
    }

    /// Whether the active version of `identity` must be superseded at `now`.
    pub fn needs_rotation(&self, identity: &str, now: u64) -> (due: bool)
        requires
            self.wf(),
        ensures
            due == is_due(self.chain(identity@), self.policy_of(identity@), now),
    {
        match self.find(identity) {
            Some(k) => self.entries[k].chain.needs_rotation(&self.entries[k].policy, now),
            None => false,
        }
    }

    proof fn lemma_after_update(before: Self, after: Self, k: int)
        requires
            before.wf(),
            0 <= k < before.entries@.len(),
            after.entries@.len() == before.entries@.len(),
            after.storage_key@ == before.storage_key@,
            after.policy == before.policy,
            forall|j: int| 0 <= j < before.entries@.len() ==> after.name_at(j) == before.name_at(j),
            forall|j: int|
                0 <= j < before.entries@.len() && j != k ==> (#[trigger] after.entries@[j]).chain@
                    == before.entries@[j].chain@ && after.entries@[j].policy
                    == before.entries@[j].policy,
            is_well_formed(after.entries@[k].chain@),
            all_hold_key_pairs::<S>(after.entries@[k].chain@, after.storage_key@),
        ensures
            after.wf(),
            after.chain(before.name_at(k)) == after.entries@[k].chain@,
            after.policy_of(before.name_at(k)) == after.entries@[k].policy,
            forall|other: Seq<char>|
                other != before.name_at(k) ==> #[trigger] after.chain(other) == before.chain(other),
            forall|other: Seq<char>|
                other != before.name_at(k) ==> #[trigger] after.policy_of(other)
                    == before.policy_of(other),
    {
        assert forall|j: int| 0 <= j < after.entries@.len() implies is_well_formed(
            (#[trigger] after.entries@[j]).chain@,
        ) && all_hold_key_pairs::<S>(after.entries@[j].chain@, after.storage_key@) by {
            if j != k {
                assert(is_well_formed(before.entries@[j].chain@));
            }
        }
        after.lemma_chain_at(k);
        assert forall|other: Seq<char>|
            #![trigger after.chain(other)]
            #![trigger after.policy_of(other)]
            other != before.name_at(k) implies after.chain(other) == before.chain(other)
            && after.policy_of(other) == before.policy_of(other) by {
            if before.knows(other) {
                let p = before.position(other);
                after.lemma_chain_at(p);
                before.lemma_chain_at(p);
            }
        }
    }

    proof fn lemma_after_push(before: Self, after: Self, identity: Seq<char>)
        requires
            before.wf(),
            !before.knows(identity),
            after.entries@.len() == before.entries@.len() + 1,
            after.storage_key@ == before.storage_key@,
            after.policy == before.policy,
            forall|j: int|
                0 <= j < before.entries@.len() ==> (#[trigger] after.entries@[j])
                    == before.entries@[j],
            after.name_at(before.entries@.len() as int) == identity,
            is_well_formed(after.entries@[before.entries@.len() as int].chain@),
            all_hold_key_pairs::<S>(
                after.entries@[before.entries@.len() as int].chain@,
                after.storage_key@,
            ),
        ensures
            after.wf(),
            after.chain(identity) == after.entries@[before.entries@.len() as int].chain@,
            after.policy_of(identity) == after.entries@[before.entries@.len() as int].policy,
            forall|other: Seq<char>|
                other != identity ==> #[trigger] after.chain(other) == before.chain(other),
            forall|other: Seq<char>|
                other != identity ==> #[trigger] after.policy_of(other) == before.policy_of(other),
    {
        let last = before.entries@.len() as int;
        assert forall|j: int, k: int| 0 <= j < k < after.entries@.len() implies after.name_at(j)
            != after.name_at(k) by {
            if k < last {
                assert(before.name_at(j) != before.name_at(k));
            } else {
                assert(before.name_at(j) != identity);
            }
        }
        assert forall|j: int| 0 <= j < after.entries@.len() implies is_well_formed(
            (#[trigger] after.entries@[j]).chain@,
        ) && all_hold_key_pairs::<S>(after.entries@[j].chain@, after.storage_key@) by {
            if j < last {
                assert(is_well_formed(before.entries@[j].chain@));
            }
        }
        after.lemma_chain_at(last);
        assert forall|other: Seq<char>|
            #![trigger after.chain(other)]
            #![trigger after.policy_of(other)]
            other != identity implies after.chain(other) == before.chain(other)
            && after.policy_of(other) == before.policy_of(other) by {
            if before.knows(other) {
                let p = before.position(other);
                after.lemma_chain_at(p);
                before.lemma_chain_at(p);
            } else {
                if after.knows(other) {
                    let p = after.position(other);
                    if p < last {
                        assert(before.name_at(p) == other);
                    }
                }
            }
        }
    }

    /// Rotates the key of `identity`: generates a fresh key pair, seals its
    /// private half under the storage key, retires the active version and
    /// makes the fresh pair the active one. For an identity without a key
    /// this makes version 1. Returns the new version's number.
    ///
    /// Key generation and sealing decide whether the call succeeds. When it
    /// fails nothing has changed: a version is either there in full or not
    /// at all. No other identity is touched either way.
    pub fn rotate(&mut self, identity: &str, config: &CryptoConfig, now: u64) -> (res: Result<
        u64,
        Error,
    >)
        requires
            old(self).wf(),
        ensures
            final(self).wf(),
            final(self).policy_spec() == old(self).policy_spec(),
            final(self).storage_key_spec() == old(self).storage_key_spec(),
            forall|any: Seq<char>| #[trigger] final(self).policy_of(any) == old(self).policy_of(any),
            forall|other: Seq<char>|
                other != identity@ ==> #[trigger] final(self).chain(other) == old(self).chain(
                    other,
                ),
            match res {
                Ok(version) => {
                    &&& version == active_version_spec(old(self).chain(identity@)) + 1
                    &&& version == active_version_spec(final(self).chain(identity@))
                    &&& final(self).chain(identity@) == rotated(
                        old(self).chain(identity@),
                        final(self).chain(identity@).last(),
                    )
                    &&& final(self).chain(identity@).last().created_at == now
                    &&& final(self).chain(identity@).last().uses == 0
                    &&& !final(self).chain(identity@).last().expired
                },
                Err(e) => {
                    &&& final(self).chain(identity@) == old(self).chain(identity@)
                    &&& (e is GenerationFailed || e is StorageSealFailed || e is Operation)
                    &&& e is Operation ==> old(self).chain(identity@).len() == u64::MAX
                },
            },
    {
        if self.active_version(identity) == u64::MAX {
            return Err(Error::Operation(String::from_str("version numbers are used up")));
        }
        match S::generate_keypair(config) {
            Ok(pair) => self.install_key_pair(identity, &pair.0, &pair.1, now),
            Err(e) => Err(e),
        }
    }

    /// Makes the key pair given the active version of `identity`: seals its
    /// private half under the storage key and retires the version that was
    /// active. For an identity without a key this makes version 1. Returns
    /// the new version's number. `rotate` is this, after generating the pair.
    ///
    /// The new version is bound to this pair and to no other: the public key
    /// it holds is `public_key`, and its container opens to `private_key`.
    /// Sealing decides whether the call succeeds; where the version numbers
    /// are used up it fails with `Operation`. When it fails nothing has
    /// changed.
    pub fn install_key_pair(
        &mut self,
        identity: &str,
        public_key: &S::PublicKey,
        private_key: &S::PrivateKey,
        now: u64,
    ) -> (res: Result<u64, Error>)
        requires
            old(self).wf(),
            S::is_key_pair(public_key, private_key),
        ensures
            final(self).wf(),
            final(self).policy_spec() == old(self).policy_spec(),
            final(self).storage_key_spec() == old(self).storage_key_spec(),
            forall|any: Seq<char>| #[trigger] final(self).policy_of(any) == old(self).policy_of(any),
            forall|other: Seq<char>|
                other != identity@ ==> #[trigger] final(self).chain(other) == old(self).chain(
                    other,
                ),
            match res {
                Ok(version) => {
                    &&& version == active_version_spec(old(self).chain(identity@)) + 1
                    &&& version == active_version_spec(final(self).chain(identity@))
                    &&& final(self).chain(identity@) == rotated(
                        old(self).chain(identity@),
                        final(self).chain(identity@).last(),
                    )
                    &&& final(self).chain(identity@).last().created_at == now
                    &&& final(self).chain(identity@).last().uses == 0
                    &&& !final(self).chain(identity@).last().expired
                    &&& public_key_of::<S>(final(self).chain(identity@).last()) == Some(
                        *public_key,
                    )
                    &&& private_key_of::<S>(
                        final(self).chain(identity@).last(),
                        final(self).storage_key_spec(),
                    ) == Some(*private_key)
                },
                Err(e) => {
                    &&& final(self).chain(identity@) == old(self).chain(identity@)
                    &&& (e is StorageSealFailed || e is Operation)
                    &&& e is Operation <==> old(self).chain(identity@).len() == u64::MAX
                },
            },
    {
        let found = self.find(identity);
        let current: u64 = match found {
            Some(k) => self.entries[k].chain.active_version(),
            None => 0,
        };
        if current == u64::MAX {
            return Err(Error::Operation(String::from_str("version numbers are used up")));
        }
        let next: u64 = current + 1;
        let public_bytes = S::public_key_bytes(public_key);
        let mut raw = S::private_key_bytes(private_key);
        let sealed = EncryptedKeyContainer::seal(
            raw.as_slice(),
            S::private_tag(),
            next,
            &self.storage_key,
        );
        zeroize(&mut raw);
        let sealed = match sealed {
            Ok(sealed) => sealed,
            Err(e) => {
                return Err(e);
            },
        };
        match found {
            Some(k) => {
                let installed = self.entries[k].chain.install(now, public_bytes, sealed);
                proof {
                    let chain = self.entries@[k as int].chain@;
                    assert forall|i: int| 0 <= i < chain.len() implies holds_key_pair::<S>(
                        #[trigger] chain[i],
                        self.storage_key@,
                    ) by {
                        if i < chain.len() - 1 {
                            assert(chain[i] == old(self).entries@[k as int].chain@[i]);
                        }
                    }
                    Self::lemma_after_update(*old(self), *self, k as int);
                }
                installed
            },
            None => {
                let mut chain = KeyChain::new();
                let installed = chain.install(now, public_bytes, sealed);
                let policy = self.policy;
                self.entries.push(IdentityKeys { name: String::from_str(identity), policy, chain });
                proof {
                    Self::lemma_after_push(*old(self), *self, identity@);
                }
                installed
            },
        }
    }

    /// The private key of version `version` of `identity`, for decryption.
    ///
    /// An identity or a version that the manager does not have gives
    /// `KeyNotFound`. An expired version gives `KeyExpired`, never another
    /// error; so does a retired version that is older than the policy
    /// retains, which this call marks expired. Every other version is handed
    /// out: the active one and the retired ones.
    pub fn get_key_for_decrypt(&mut self, identity: &str, version: u64, now: u64) -> (res: Result<
        S::PrivateKey,
        Error,
    >)
        requires
            old(self).wf(),
        ensures
            final(self).wf(),
            final(self).policy_spec() == old(self).policy_spec(),
            final(self).storage_key_spec() == old(self).storage_key_spec(),
            forall|any: Seq<char>| #[trigger] final(self).policy_of(any) == old(self).policy_of(any),
            forall|other: Seq<char>|
                other != identity@ ==> #[trigger] final(self).chain(other) == old(self).chain(
                    other,
                ),
            final(self).chain(identity@) == after_request(
                old(self).chain(identity@),
                version,
                old(self).policy_of(identity@),
                now,
            ),
            match state_spec(old(self).chain(identity@), version) {
                None => res matches Err(e) && e is KeyNotFound,
                Some(_) => if is_expired_at(
                    old(self).chain(identity@),
                    version,
                    old(self).policy_of(identity@),
                    now,
                ) {
                    res matches Err(e) && e is KeyExpired
                } else {
                    res matches Ok(key) && private_key_of::<S>(
                        old(self).chain(identity@)[version - 1],
                        old(self).storage_key_spec(),
                    ) == Some(key)
                },
            },
            res is Ok ==> is_retrievable(final(self).chain(identity@), version),
    {
        let k = match self.find(identity) {
            Some(k) => k,
            None => {
                return Err(Error::KeyNotFound(String::from_str("no key under this identity")));
            },
        };
        let policy = self.entries[k].policy;
        let allowed = self.entries[k].chain.request(version, &policy, now);
        proof {
            lemma_key_pairs_are_kept::<S>(
                old(self).entries@[k as int].chain@,
                self.entries@[k as int].chain@,
                self.storage_key@,
            );
            Self::lemma_after_update(*old(self), *self, k as int);
        }
        match allowed {
            Err(e) => Err(e),
            Ok(()) => {
                let held = match self.entries[k].chain.version(version) {
                    Some(held) => held,
                    None => {
                        return Err(Error::KeyNotFound(String::from_str("no such key version")));
                    },
                };
                proof {
                    assert(holds_key_pair::<S>(
                        old(self).entries@[k as int].chain@[version - 1],
                        self.storage_key@,
                    ));
                }
                let mut raw = match held.sealed_private.open(&self.storage_key) {
                    Ok(raw) => raw,
                    Err(e) => {
                        return Err(e);
                    },
                };
                let key = S::private_key_from_bytes(raw.as_slice());
                zeroize(&mut raw);
                key
            },
        }
    }

    /// The active key pair of `identity`, for a new encryption. The call
    /// counts as one use of the version it hands out.
    ///
    /// The policy is looked at first: where the active version is too old
    /// or was used too often, the key is rotated, and the fresh version is
    /// handed out. If that rotation fails, the call fails with the rotation's
    /// error and nothing has changed. An identity without a key gives
    /// `KeyNotFound`. The version handed out is always the active one, never
    /// a retired or expired one, and its two keys belong together.
    pub fn get_active_key(&mut self, identity: &str, config: &CryptoConfig, now: u64) -> (res:
        Result<ActiveKey<S>, Error>)
        requires
            old(self).wf(),
        ensures
            final(self).wf(),
            final(self).policy_spec() == old(self).policy_spec(),
            final(self).storage_key_spec() == old(self).storage_key_spec(),
            forall|any: Seq<char>| #[trigger] final(self).policy_of(any) == old(self).policy_of(any),
            forall|other: Seq<char>|
                other != identity@ ==> #[trigger] final(self).chain(other) == old(self).chain(
                    other,
                ),
            old(self).chain(identity@).len() == 0 ==> (res matches Err(e) && e is KeyNotFound)
                && final(self).chain(identity@) == old(self).chain(identity@),
            old(self).chain(identity@).len() > 0 ==> match res {
                Ok(key) => {
                    &&& key.version == active_version_spec(final(self).chain(identity@))
                    &&& state_spec(final(self).chain(identity@), key.version) == Some(
                        VersionState::Active,
                    )
                    &&& public_key_of::<S>(final(self).chain(identity@).last()) == Some(
                        key.public_key,
                    )
                    &&& private_key_of::<S>(
                        final(self).chain(identity@).last(),
                        final(self).storage_key_spec(),
                    ) == Some(key.private_key)
                    &&& S::is_key_pair(&key.public_key, &key.private_key)
                    &&& if is_due(old(self).chain(identity@), old(self).policy_of(identity@), now) {
                        &&& key.version == active_version_spec(old(self).chain(identity@)) + 1
                        &&& final(self).chain(identity@).drop_last() == old(self).chain(identity@)
                        &&& final(self).chain(identity@).last().created_at == now
                        &&& final(self).chain(identity@).last().uses == 1
                    } else {
                        final(self).chain(identity@) == with_use(old(self).chain(identity@))
                    }
                },
                Err(e) => {
                    &&& is_due(old(self).chain(identity@), old(self).policy_of(identity@), now)
                    &&& final(self).chain(identity@) == old(self).chain(identity@)
                    &&& (e is GenerationFailed || e is StorageSealFailed || e is Operation)
                    &&& e is Operation ==> old(self).chain(identity@).len() == u64::MAX
                },
            },
    {
        if self.active_version(identity) == 0 {
            return Err(Error::KeyNotFound(String::from_str("no key under this identity")));
        }
        let due = self.needs_rotation(identity, now);
        if due {
            match self.rotate(identity, config, now) {
                Ok(_) => {},
                Err(e) => {
                    return Err(e);
                },
            }
        }
        let ghost middle = *self;
        let k = match self.find(identity) {
            Some(k) => k,
            None => {
                return Err(Error::KeyNotFound(String::from_str("no key under this identity")));
            },
        };
        self.entries[k].chain.note_use();
        proof {
            lemma_key_pairs_are_kept::<S>(
                middle.entries@[k as int].chain@,
                self.entries@[k as int].chain@,
                self.storage_key@,
            );
            Self::lemma_after_update(middle, *self, k as int);
            if due {
                assert(self.chain(identity@).drop_last() =~= old(self).chain(identity@));
            }
        }
        let version = self.entries[k].chain.active_version();
        let held = match self.entries[k].chain.version(version) {
            Some(held) => held,
            None => {
                return Err(Error::KeyNotFound(String::from_str("no such key version")));
            },
        };
        proof {
            assert(holds_key_pair::<S>(
                self.entries@[k as int].chain@[version - 1],
                self.storage_key@,
            ));
        }
        let public_key = match S::public_key_from_bytes(held.public_key.as_slice()) {
            Ok(key) => key,
            Err(e) => {
                return Err(e);
            },
        };
        let mut raw = match held.sealed_private.open(&self.storage_key) {
            Ok(raw) => raw,
            Err(e) => {
                return Err(e);
            },
        };
        let private_key = S::private_key_from_bytes(raw.as_slice());
        zeroize(&mut raw);
        match private_key {
            Ok(private_key) => Ok(ActiveKey { version, public_key, private_key }),
            Err(e) => Err(e),
        }
    }

    /// Expires version `version` of `identity` for good.
    ///
    /// An identity or a version that the manager does not have gives
    /// `KeyNotFound`. The active version cannot expire before it is
    /// superseded: the call fails with `Operation`.
    pub fn expire_version(&mut self, identity: &str, version: u64) -> (res: Result<(), Error>)
        requires
            old(self).wf(),
        ensures
            final(self).wf(),
            final(self).policy_spec() == old(self).policy_spec(),
            final(self).storage_key_spec() == old(self).storage_key_spec(),
            forall|any: Seq<char>| #[trigger] final(self).policy_of(any) == old(self).policy_of(any),
            forall|other: Seq<char>|
                other != identity@ ==> #[trigger] final(self).chain(other) == old(self).chain(
                    other,
                ),
            match state_spec(old(self).chain(identity@), version) {
                None => (res matches Err(e) && e is KeyNotFound) && final(self).chain(identity@)
                    == old(self).chain(identity@),
                Some(VersionState::Active) => (res matches Err(e) && e is Operation)
                    && final(self).chain(identity@) == old(self).chain(identity@),
                Some(_) => res is Ok && final(self).chain(identity@) == with_expired(
                    old(self).chain(identity@),
                    version,
                ),
            },
    {
        let k = match self.find(identity) {
            Some(k) => k,
            None => {
                return Err(Error::KeyNotFound(String::from_str("no key under this identity")));
            },
        };
        let res = self.entries[k].chain.expire(version);
        proof {
            lemma_key_pairs_are_kept::<S>(
                old(self).entries@[k as int].chain@,
                self.entries@[k as int].chain@,
                self.storage_key@,
            );
            Self::lemma_after_update(*old(self), *self, k as int);
        }
        res
    }
}

} // verus!
