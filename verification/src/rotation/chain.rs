//! The versions of one key identity.
//!
//! Versions are numbered from 1. The newest is the active one: new
//! encryptions use it. The others are retired, good for decryption only,
//! until they expire; an expired version is never handed out again. A chain
//! without versions is an identity that has no key yet.

use crate::common::errors::Error;
use crate::rotation::policy::RotationPolicy;
use crate::storage::container::{ContainerView, EncryptedKeyContainer};
use vstd::prelude::*;
use vstd::string::*;

verus! {

/// Where a version stands in its life.
#[derive(Debug, Clone, Copy, PartialEq, Eq, Structural)]
pub enum VersionState {
    /// Used for new encryptions, and for decryption.
    Active,
    /// Superseded: used for decryption only.
    Retired,
    /// No longer handed out at all.
    Expired,
}

/// A version as a plain value.
pub struct VersionView {
    pub created_at: u64,
    pub uses: u64,
    pub expired: bool,
    pub public_key: Seq<u8>,
    pub sealed: ContainerView,
}

/// One version of a key: when it was made, how often it was handed out for
/// encryption, whether it has expired, its public key, and its private key
/// in a sealed container.
#[derive(Debug)]
pub struct KeyVersion {
    pub created_at: u64,
    pub uses: u64,
    pub expired: bool,
    pub public_key: Vec<u8>,
    pub sealed_private: EncryptedKeyContainer,
}

impl View for KeyVersion {
    type V = VersionView;

    open spec fn view(&self) -> VersionView {
        VersionView {
            created_at: self.created_at,
            uses: self.uses,
            expired: self.expired,
            public_key: self.public_key@,
            sealed: self.sealed_private@,
        }
    }
}

/// The versions of one key identity, oldest first.
#[derive(Debug)]
pub struct KeyChain {
    versions: Vec<KeyVersion>,
}

impl View for KeyChain {
    type V = Seq<VersionView>;

    closed spec fn view(&self) -> Seq<VersionView> {
        Seq::new(self.versions@.len(), |i: int| self.versions@[i]@)
    }
}

/// The number of the active version: 0 where there is none.
pub open spec fn active_version_spec(chain: Seq<VersionView>) -> nat {
    chain.len()
}

/// The state of version `version`: `None` where the chain has no such
/// version.
pub open spec fn state_spec(chain: Seq<VersionView>, version: u64) -> Option<VersionState> {
    if version == 0 || version > chain.len() {
        None
    } else if version == chain.len() {
        Some(VersionState::Active)
    } else if chain[version - 1].expired {
        Some(VersionState::Expired)
    } else {
        Some(VersionState::Retired)
    }
}

/// Whether version `version` can still be had for decryption: it is active
/// or retired.
pub open spec fn is_retrievable(chain: Seq<VersionView>, version: u64) -> bool {
    state_spec(chain, version) matches Some(state) && state != VersionState::Expired
}

/// What a chain must satisfy: version numbers fit in 64 bits, each sealed
/// container carries the number of its version, and the active version has
/// not expired.
pub open spec fn is_well_formed(chain: Seq<VersionView>) -> bool {
    &&& chain.len() <= u64::MAX
    &&& forall|i: int| 0 <= i < chain.len() ==> (#[trigger] chain[i]).sealed.version == i + 1
    &&& chain.len() > 0 ==> !chain[chain.len() - 1].expired
}

/// The chain after a rotation: `fresh` becomes the active version, and the
/// version that was active is retired.
pub open spec fn rotated(chain: Seq<VersionView>, fresh: VersionView) -> Seq<VersionView> {
    chain.push(fresh)
}

/// The chain after several rotations, one for each of `fresh` in turn.
pub open spec fn rotated_many(chain: Seq<VersionView>, fresh: Seq<VersionView>) -> Seq<VersionView>
    decreases fresh.len(),
{
    if fresh.len() == 0 {
        chain
    } else {
        rotated(rotated_many(chain, fresh.drop_last()), fresh.last())
    }
}

/// The chain after version `version` has expired.
pub open spec fn with_expired(chain: Seq<VersionView>, version: u64) -> Seq<VersionView> {
    chain.update(
        version - 1,
        VersionView {
            created_at: chain[version - 1].created_at,
            uses: chain[version - 1].uses,
            expired: true,
            public_key: chain[version - 1].public_key,
            sealed: chain[version - 1].sealed,
        },
    )
}

/// The chain after the active version has been handed out once more. The
/// count stops at the largest number it can hold.
pub open spec fn with_use(chain: Seq<VersionView>) -> Seq<VersionView> {
    let last = chain[chain.len() - 1];
    chain.update(
        chain.len() - 1,
        VersionView {
            created_at: last.created_at,
            uses: if last.uses < u64::MAX {
                (last.uses + 1) as u64
            } else {
                last.uses
            },
            expired: last.expired,
            public_key: last.public_key,
            sealed: last.sealed,
        },
    )
}

/// Whether the active version must be superseded at `now`. A chain without
/// versions has nothing to supersede.
pub open spec fn is_due(chain: Seq<VersionView>, policy: RotationPolicy, now: u64) -> bool {
    chain.len() > 0 && policy.is_due_spec(
        chain[chain.len() - 1].created_at,
        chain[chain.len() - 1].uses,
        now,
    )
}

/// Whether a request for version `version` finds it expired at `now`: it is
/// marked so, or it is retired and older than the policy retains.
pub open spec fn is_expired_at(chain: Seq<VersionView>, version: u64, policy: RotationPolicy, now: u64) -> bool {
    match state_spec(chain, version) {
        Some(VersionState::Expired) => true,
        Some(VersionState::Retired) => policy.is_overdue_spec(chain[version - 1].created_at, now),
        _ => false,
    }
}

/// The chain after a request for version `version` at `now`: a retired
/// version that is older than the policy retains is marked expired, and
/// nothing else changes.
pub open spec fn after_request(chain: Seq<VersionView>, version: u64, policy: RotationPolicy, now: u64) -> Seq<VersionView> {
    if state_spec(chain, version) == Some(VersionState::Retired) && policy.is_overdue_spec(
        chain[version - 1].created_at,
        now,
    ) {
        with_expired(chain, version)
    } else {
        chain
    }
}

impl KeyChain {
    /// Whether the chain is well formed. Every chain that this module hands
    /// out is.
    pub open spec fn wf(&self) -> bool {
        is_well_formed(self@)
    }

    /// The chain of an identity that has no key yet.
    pub fn new() -> (chain: KeyChain)
        ensures
            chain@ == Seq::<VersionView>::empty(),
            chain.wf(),
    {
        let chain = KeyChain { versions: Vec::new() };
        chain
    }

    /// The number of the active version: 0 where there is none.
    pub fn active_version(&self) -> (version: u64)
        requires
            self.wf(),
        ensures
            version == active_version_spec(self@),
    {
        self.versions.len() as u64
    }

    /// The state of version `version`: `None` where the chain has no such
    /// version.
    pub fn state_of(&self, version: u64) -> (state: Option<VersionState>)
        requires
            self.wf(),
        ensures
            state == state_spec(self@, version),
            state is Some ==> version <= usize::MAX,
    {
        let count = self.versions.len() as u64;
        if version == 0 || version > count {
            None
        } else if version == count {
            Some(VersionState::Active)
        } else if self.versions[(version - 1) as usize].expired {
            Some(VersionState::Expired)
        } else {
            Some(VersionState::Retired)
        }
    }

    /// Version `version`, where the chain has it.
    pub fn version(&self, version: u64) -> (found: Option<&KeyVersion>)
        requires
            self.wf(),
        ensures
            match state_spec(self@, version) {
                Some(_) => found matches Some(v) && v@ == self@[version - 1],
                None => found is None,
            },
    {
        let count = self.versions.len() as u64;
        if version == 0 || version > count {
            None
        } else {
            Some(&self.versions[(version - 1) as usize])
        }
    }

    /// Whether the active version must be superseded at `now`.
    pub fn needs_rotation(&self, policy: &RotationPolicy, now: u64) -> (due: bool)
        requires
            self.wf(),
        ensures
            due == is_due(self@, *policy, now),
    {
        let count = self.versions.len();
        if count == 0 {
            false
        } else {
            policy.is_due(self.versions[count - 1].created_at, self.versions[count - 1].uses, now)
        }
    }

    /// Rotates: a version made at `created_at` with the keys given becomes
    /// the active one, and the version that was active is retired. Returns
    /// the new version's number.
    ///
    /// The container must carry the number that the new version gets, one
    /// more than the active version's. Otherwise the call fails with
    /// `Operation` and changes nothing.
    pub fn install(
        &mut self,
        created_at: u64,
        public_key: Vec<u8>,
        sealed_private: EncryptedKeyContainer,
    ) -> (res: Result<u64, Error>)
        requires
            old(self).wf(),
        ensures
            final(self).wf(),
            sealed_private@.version == old(self)@.len() + 1 ==> {
                &&& res == Ok::<u64, Error>(sealed_private@.version)
                &&& final(self)@ == rotated(
                    old(self)@,
                    VersionView {
                        created_at,
                        uses: 0,
                        expired: false,
                        public_key: public_key@,
                        sealed: sealed_private@,
                    },
                )
            },
            sealed_private@.version != old(self)@.len() + 1 ==> {
                &&& res matches Err(e) && e is Operation
                &&& final(self)@ == old(self)@
            },
    {
        let count = self.versions.len() as u64;
        let number = sealed_private.version();
        if count == u64::MAX || number != count + 1 {
            return Err(
                Error::Operation(String::from_str("container version does not follow the chain")),
            );
        }
        self.versions.push(
            KeyVersion { created_at, uses: 0, expired: false, public_key, sealed_private },
        );
        proof {
            assert(self@ =~= rotated(
                old(self)@,
                VersionView {
                    created_at,
                    uses: 0,
                    expired: false,
                    public_key: public_key@,
                    sealed: sealed_private@,
                },
            ));
        }
        Ok(number)
    }

    /// Counts one more use of the active version. Without an active version
    /// nothing changes.
    pub fn note_use(&mut self)
        requires
            old(self).wf(),
        ensures
            final(self).wf(),
            old(self)@.len() > 0 ==> final(self)@ == with_use(old(self)@),
            old(self)@.len() == 0 ==> final(self)@ == old(self)@,
    {
        let count = self.versions.len();
        if count > 0 {
            let uses = self.versions[count - 1].uses;
            if uses < u64::MAX {
                self.versions[count - 1].uses = uses + 1;
            }
            proof {
                assert(self@ =~= with_use(old(self)@));
            }
        }
    }

    /// Expires version `version` for good.
    ///
    /// A version that the chain does not have gives `KeyNotFound`. The
    /// active version cannot expire: it has to be superseded first, and the
    /// call fails with `Operation`. Expiring an expired version changes
    /// nothing.
    pub fn expire(&mut self, version: u64) -> (res: Result<(), Error>)
        requires
            old(self).wf(),
        ensures
            final(self).wf(),
            match state_spec(old(self)@, version) {
                None => (res matches Err(e) && e is KeyNotFound) && final(self)@ == old(self)@,
                Some(VersionState::Active) => (res matches Err(e) && e is Operation)
                    && final(self)@ == old(self)@,
                Some(_) => res is Ok && final(self)@ == with_expired(old(self)@, version),
            },
    {
        let state = self.state_of(version);
        match state {
            None => Err(Error::KeyNotFound(String::from_str("no such key version"))),
            Some(VersionState::Active) => Err(
                Error::Operation(String::from_str("the active version cannot expire")),
            ),
            Some(_) => {
                let index = (version - 1) as usize;
                self.versions[index].expired = true;
                proof {
                    assert(self@ =~= with_expired(old(self)@, version));
                }
                Ok(())
            },
        }
    }

    /// Decides whether version `version` may be had for decryption at `now`.
    ///
    /// A version that the chain does not have gives `KeyNotFound`. An expired
    /// version gives `KeyExpired`; so does a retired version that is older
    /// than the policy retains, which is marked expired by this call. The
    /// active version and every other retired version are let through.
    pub fn request(&mut self, version: u64, policy: &RotationPolicy, now: u64) -> (res: Result<
        (),
        Error,
    >)
        requires
            old(self).wf(),
        ensures
            final(self).wf(),
            final(self)@ == after_request(old(self)@, version, *policy, now),
            match state_spec(old(self)@, version) {
                None => res matches Err(e) && e is KeyNotFound,
                Some(_) => if is_expired_at(old(self)@, version, *policy, now) {
                    res matches Err(e) && e is KeyExpired
                } else {
                    res is Ok
                },
            },
            res is Ok ==> is_retrievable(final(self)@, version),
    {
        let state = self.state_of(version);
        match state {
            None => Err(Error::KeyNotFound(String::from_str("no such key version"))),
            Some(VersionState::Active) => Ok(()),
            Some(VersionState::Expired) => Err(
                Error::KeyExpired(String::from_str("the key version has expired")),
            ),
            Some(VersionState::Retired) => {
                let index = (version - 1) as usize;
                if policy.is_overdue(self.versions[index].created_at, now) {
                    self.versions[index].expired = true;
                    proof {
                        assert(self@ =~= with_expired(old(self)@, version));
                    }
                    Err(Error::KeyExpired(String::from_str("the key version has expired")))
                } else {
                    Ok(())
                }
            },
        }
    }
}

/// At most one version of a chain is active at a time.
pub proof fn lemma_at_most_one_active(chain: Seq<VersionView>, version: u64, other: u64)
    requires
        state_spec(chain, version) == Some(VersionState::Active),
        state_spec(chain, other) == Some(VersionState::Active),
    ensures
        version == other,
{
}

/// Rotation keeps a chain well formed, moves the active version up by one,
/// and leaves every earlier version as retrievable as it was.
pub proof fn lemma_rotation_step(chain: Seq<VersionView>, fresh: VersionView)
    requires
        is_well_formed(chain),
        chain.len() < u64::MAX,
        fresh.sealed.version == chain.len() + 1,
        !fresh.expired,
    ensures
        is_well_formed(rotated(chain, fresh)),
        active_version_spec(rotated(chain, fresh)) == active_version_spec(chain) + 1,
        forall|version: u64|
            is_retrievable(chain, version) ==> is_retrievable(rotated(chain, fresh), version),
        forall|version: u64|
            1 <= version <= chain.len() ==> (is_retrievable(rotated(chain, fresh), version)
                <==> is_retrievable(chain, version)),
{
}

/// Whether each of `fresh`, in turn, can follow `chain`: its container
/// carries the next version number, and it has not expired.
pub open spec fn can_follow(chain: Seq<VersionView>, fresh: Seq<VersionView>) -> bool {
    &&& chain.len() + fresh.len() <= u64::MAX
    &&& forall|i: int|
        0 <= i < fresh.len() ==> (#[trigger] fresh[i]).sealed.version == chain.len() + i + 1
            && !fresh[i].expired
}

/// Rotation is monotonic: after as many rotations as `fresh` has entries, the
/// active version is the one before plus that many, the chain is well formed,
/// and every version that could be had for decryption before can still be
/// had.
pub proof fn lemma_rotations_add_up(chain: Seq<VersionView>, fresh: Seq<VersionView>)
    requires
        is_well_formed(chain),
        can_follow(chain, fresh),
    ensures
        is_well_formed(rotated_many(chain, fresh)),
        active_version_spec(rotated_many(chain, fresh)) == active_version_spec(chain) + fresh.len(),
        forall|version: u64|
            is_retrievable(chain, version) ==> is_retrievable(rotated_many(chain, fresh), version),
    decreases fresh.len(),
{
    if fresh.len() > 0 {
        let earlier = fresh.drop_last();
        assert forall|i: int| 0 <= i < earlier.len() implies (#[trigger] earlier[i]).sealed.version
            == chain.len() + i + 1 && !earlier[i].expired by {
            assert(earlier[i] == fresh[i]);
        }
        lemma_rotations_add_up(chain, earlier);
        lemma_rotation_step(rotated_many(chain, earlier), fresh.last());
    }
}

/// Rotations bind versions in order: after them the chain is the chain
/// before, unchanged, followed by the fresh versions as they came. The
/// `i`-th of them is version `chain.len() + i + 1` and no other.
pub proof fn lemma_rotations_bind_in_order(chain: Seq<VersionView>, fresh: Seq<VersionView>)
    ensures
        rotated_many(chain, fresh) == chain + fresh,
    decreases fresh.len(),
{
    if fresh.len() > 0 {
        lemma_rotations_bind_in_order(chain, fresh.drop_last());
        assert(fresh == fresh.drop_last().push(fresh.last()));
    }
    assert(rotated_many(chain, fresh) =~= chain + fresh);
}

/// An expired version stays expired: no rotation and no request brings it
/// back, and every request for it is refused with `KeyExpired`.
pub proof fn lemma_expired_stays_expired(
    chain: Seq<VersionView>,
    version: u64,
    fresh: VersionView,
    asked: u64,
    policy: RotationPolicy,
    now: u64,
)
    requires
        state_spec(chain, version) == Some(VersionState::Expired),
    ensures
        state_spec(rotated(chain, fresh), version) == Some(VersionState::Expired),
        state_spec(after_request(chain, asked, policy, now), version) == Some(
            VersionState::Expired,
        ),
        is_expired_at(chain, version, policy, now),
        !is_retrievable(chain, version),
{
}

} // verus!
