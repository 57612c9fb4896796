//! Escrow factory: deterministic instance identities and the deployment
//! registry.
//!
//! The factory derives a per-order identity from its own identity and a
//! caller-supplied salt, reserves the salt when a deployment is requested,
//! and commits the salt-to-instance mapping only once the asynchronous
//! deployment confirmation reports success.  Each pending deployment walks
//! the lifecycle `Requested -> Deployed -> Confirmed | Failed`, and the
//! registry exposes only the `Confirmed` entries; a failed deployment
//! releases its salt and leaves no mapping behind.

use vstd::prelude::*;

use crate::digest::bytes_eq;
use crate::digest::hex_encode;
use crate::digest::keccak256;
use crate::digest::keccak_of;
use crate::digest::push_bytes;
use crate::digest::push_digest;
use crate::digest::spec_hex_lower;
use crate::errors::EscrowError;
use crate::escrow::EscrowDst;
use crate::escrow::EscrowImmutables;

verus! {

/// Lifecycle of one requested deployment.
#[derive(Clone, Copy, Debug, PartialEq, Eq, Structural)]
pub enum DeploymentStatus {
    /// The identity is reserved and the deployment has been requested.
    Requested,
    /// The host reported the instance deployed, confirmation still pending.
    Deployed,
    /// Deployment confirmed: the entry is visible in the registry.
    Confirmed,
    /// Deployment failed: the salt is released and no mapping is recorded.
    Failed,
}

/// One requested deployment, keyed by its salt.
#[derive(Debug)]
pub struct PendingDeployment {
    /// Caller-supplied entropy the identity was derived from.
    pub salt: Vec<u8>,
    /// The derived instance identity.
    pub instance_id: String,
    /// Where the deployment stands in its lifecycle.
    pub status: DeploymentStatus,
}

/// The factory: its own identity and every deployment it has requested.
#[derive(Debug)]
pub struct EscrowFactory {
    /// Identity bytes of the factory, mixed into every derived identity.
    pub factory_id: Vec<u8>,
    /// Every requested deployment, in request order.
    pub deployments: Vec<PendingDeployment>,
}

/// Derived instance identity: the digest of the factory identity followed
/// by the salt, rendered as a lowercase hex string.
pub open spec fn spec_instance_id(factory_id: Seq<u8>, salt: Seq<u8>) -> Seq<char> {
    spec_hex_lower(keccak_of(factory_id + salt))
}

/// An entry still reserves its salt unless its deployment failed.
pub open spec fn spec_entry_active(entry: PendingDeployment) -> bool {
    entry.status != DeploymentStatus::Failed
}

/// Deriving an instance identity is a pure function: the same factory
/// identity and the same salt always yield the same derived identity.
pub proof fn lemma_instance_id_deterministic(factory_id: Seq<u8>, salt1: Seq<u8>, salt2: Seq<u8>)
    requires
        salt1 == salt2,
    ensures
        spec_instance_id(factory_id, salt1) == spec_instance_id(factory_id, salt2),
{
}

impl EscrowFactory {
    /// Registry invariant: entries that still reserve their salt carry
    /// pairwise distinct salts, so a lookup is unambiguous.
    pub open spec fn wf(&self) -> bool {
        forall|i: int, j: int|
            0 <= i < j < self.deployments@.len() && spec_entry_active(#[trigger] self.deployments@[i])
                && spec_entry_active(#[trigger] self.deployments@[j])
                ==> self.deployments@[i].salt@ != self.deployments@[j].salt@
    }

    /// Whether some entry still reserves `salt`.
    pub open spec fn spec_has_active(&self, salt: Seq<u8>) -> bool {
        exists|i: int|
            0 <= i < self.deployments@.len() && spec_entry_active(#[trigger] self.deployments@[i])
                && self.deployments@[i].salt@ == salt
    }

    /// Whether the entry at `i` is a confirmed deployment for `salt`.
    pub open spec fn spec_confirmed_at(&self, i: int, salt: Seq<u8>) -> bool {
        &&& 0 <= i < self.deployments@.len()
        &&& self.deployments@[i].status == DeploymentStatus::Confirmed
        &&& self.deployments@[i].salt@ == salt
    }

    /// A fresh factory with no deployments.
    pub fn new(factory_id: Vec<u8>) -> (f: EscrowFactory)
        ensures
            f.wf(),
            f.factory_id == factory_id,
            f.deployments@.len() == 0,
    {
        EscrowFactory { factory_id, deployments: Vec::new() }
    }

    /// Derives the instance identity for `salt` without deploying
    /// anything: a pure function of the factory identity and the salt.
    pub fn predict_instance_id(&self, salt: &Vec<u8>) -> (id: String)
        ensures
            id@ == spec_instance_id(self.factory_id@, salt@),
    {
        let mut data: Vec<u8> = Vec::new();
        push_bytes(&mut data, &self.factory_id);
        push_bytes(&mut data, salt);
        proof {
            assert(Seq::<u8>::empty() + self.factory_id@ + salt@ =~= self.factory_id@ + salt@);
        }
        let digest = keccak256(&data);
        let mut digest_bytes: Vec<u8> = Vec::new();
        push_digest(&mut digest_bytes, &digest);
        proof {
            assert(Seq::<u8>::empty() + digest@ =~= digest@);
        }
        hex_encode(&digest_bytes)
    }

    /// Whether some entry still reserves `salt`.
    fn has_active(&self, salt: &Vec<u8>) -> (r: bool)
        ensures
            r == self.spec_has_active(salt@),
    {
        let mut i: usize = 0;
        while i < self.deployments.len()
            invariant
                0 <= i <= self.deployments@.len(),
                forall|j: int|
                    0 <= j < i ==> !(spec_entry_active(#[trigger] self.deployments@[j])
                        && self.deployments@[j].salt@ == salt@),
            decreases self.deployments@.len() - i,
        {
            let entry = &self.deployments[i];
            if !(entry.status == DeploymentStatus::Failed) && bytes_eq(&entry.salt, salt) {
                return true;
            }
            i = i + 1;
        }
        false
    }

    /// Requests deployment of a new escrow under `salt`: derives the
    /// identity, initializes the instance with half of the attached
    /// deposit as its safety deposit, and reserves the salt as
    /// `Requested`.  Fails when the salt is already reserved or when the
    /// instance terms do not validate; a failure records nothing.
    pub fn create_escrow(
        &mut self,
        salt: Vec<u8>,
        hashlock: [u8; 32],
        token_id: String,
        amount: u128,
        maker: String,
        taker: String,
        timelocks: u64,
        attached_deposit: u128,
        deployed_at: u64,
    ) -> (r: Result<(String, EscrowDst), EscrowError>)
        requires
            old(self).wf(),
        ensures
            final(self).wf(),
            final(self).factory_id == old(self).factory_id,
            r is Ok <==> (!old(self).spec_has_active(salt@) && EscrowDst::spec_init_ok(
                amount,
                attached_deposit / 2,
                timelocks,
            )),
            match r {
                Ok((id, escrow)) => {
                    &&& id@ == spec_instance_id(old(self).factory_id@, salt@)
                    &&& escrow.wf()
                    &&& escrow.immutables == (EscrowImmutables {
                        hashlock,
                        token_id,
                        amount,
                        maker,
                        taker,
                        safety_deposit: attached_deposit / 2,
                        timelocks,
                        deployed_at,
                        partial_fill_info: None,
                    })
                    &&& !escrow.withdrawn
                    &&& !escrow.cancelled
                    &&& final(self).deployments@.len() == old(self).deployments@.len() + 1
                    &&& forall|i: int|
                        0 <= i < old(self).deployments@.len() ==> final(self).deployments@[i]
                            == old(self).deployments@[i]
                    &&& final(self).deployments@.last().salt@ == salt@
                    &&& final(self).deployments@.last().instance_id@ == id@
                    &&& final(self).deployments@.last().status == DeploymentStatus::Requested
                },
                Err(e) => {
                    &&& *final(self) == *old(self)
                    &&& e == (if old(self).spec_has_active(salt@) {
                        EscrowError::ValidationError
                    } else {
                        EscrowDst::spec_init_error(amount, attached_deposit / 2, timelocks)
                    })
                },
            },
    {
        if self.has_active(&salt) {
            return Err(EscrowError::ValidationError);
        }
        let id = self.predict_instance_id(&salt);
        let instance_id = id.clone();
        match EscrowDst::new(
            hashlock,
            token_id,
            amount,
            maker,
            taker,
            attached_deposit / 2,
            timelocks,
            deployed_at,
        ) {
            Err(e) => Err(e),
            Ok(escrow) => {
                let entry = PendingDeployment {
                    salt,
                    instance_id,
                    status: DeploymentStatus::Requested,
                };
                self.deployments.push(entry);
                Ok((id, escrow))
            },
        }
    }

    /// Records that the host reported the instance for `salt` deployed:
    /// moves its entry from `Requested` to `Deployed`.  Returns whether
    /// such an entry was found.
    pub fn record_deployed(&mut self, salt: &Vec<u8>) -> (r: bool)
        requires
            old(self).wf(),
        ensures
            final(self).wf(),
            final(self).factory_id == old(self).factory_id,
            r <==> (exists|i: int|
                0 <= i < old(self).deployments@.len() && (#[trigger] old(self).deployments@[i]).status
                    == DeploymentStatus::Requested && old(self).deployments@[i].salt@ == salt@),
            r ==> exists|i: int|
                {
                    &&& 0 <= i < old(self).deployments@.len()
                    &&& (#[trigger] old(self).deployments@[i]).status == DeploymentStatus::Requested
                    &&& old(self).deployments@[i].salt@ == salt@
                    &&& final(self).deployments@ == old(self).deployments@.update(
                        i,
                        PendingDeployment {
                            status: DeploymentStatus::Deployed,
                            ..old(self).deployments@[i]
                        },
                    )
                },
            !r ==> *final(self) == *old(self),
    {
        self.transition(salt, DeploymentStatus::Requested, DeploymentStatus::Deployed)
    }

    /// Records the confirmation callback for `salt`: moves its `Deployed`
    /// entry to `Confirmed` on success, or to `Failed` on failure, which
    /// releases the salt and keeps the mapping out of the registry.
    /// Returns whether such an entry was found.
    pub fn record_confirmation(&mut self, salt: &Vec<u8>, success: bool) -> (r: bool)
        requires
            old(self).wf(),
        ensures
            final(self).wf(),
            final(self).factory_id == old(self).factory_id,
            r <==> (exists|i: int|
                0 <= i < old(self).deployments@.len() && (#[trigger] old(self).deployments@[i]).status
                    == DeploymentStatus::Deployed && old(self).deployments@[i].salt@ == salt@),
            r ==> exists|i: int|
                {
                    &&& 0 <= i < old(self).deployments@.len()
                    &&& (#[trigger] old(self).deployments@[i]).status == DeploymentStatus::Deployed
                    &&& old(self).deployments@[i].salt@ == salt@
                    &&& final(self).deployments@ == old(self).deployments@.update(
                        i,
                        PendingDeployment {
                            status: if success {
                                DeploymentStatus::Confirmed
                            } else {
                                DeploymentStatus::Failed
                            },
                            ..old(self).deployments@[i]
                        },
                    )
                },
            !r ==> *final(self) == *old(self),
    {
        self.transition(
            salt,
            DeploymentStatus::Deployed,
            if success {
                DeploymentStatus::Confirmed
            } else {
                DeploymentStatus::Failed
            },
        )
    }

    /// Moves the entry for `salt` from `from` to `to`, if one exists.
    fn transition(&mut self, salt: &Vec<u8>, from: DeploymentStatus, to: DeploymentStatus) -> (r:
        bool)
        requires
            old(self).wf(),
            from != DeploymentStatus::Failed,
        ensures
            final(self).wf(),
            final(self).factory_id == old(self).factory_id,
            r <==> (exists|i: int|
                0 <= i < old(self).deployments@.len() && (#[trigger] old(self).deployments@[i]).status
                    == from && old(self).deployments@[i].salt@ == salt@),
            r ==> exists|i: int|
                {
                    &&& 0 <= i < old(self).deployments@.len()
                    &&& (#[trigger] old(self).deployments@[i]).status == from
                    &&& old(self).deployments@[i].salt@ == salt@
                    &&& final(self).deployments@ == old(self).deployments@.update(
                        i,
                        PendingDeployment { status: to, ..old(self).deployments@[i] },
                    )
                },
            !r ==> *final(self) == *old(self),
    {
        let mut i: usize = 0;
        while i < self.deployments.len()
            invariant
                *self == *old(self),
                old(self).wf(),
                from != DeploymentStatus::Failed,
                0 <= i <= self.deployments@.len(),
                forall|j: int|
                    0 <= j < i ==> !((#[trigger] self.deployments@[j]).status == from
                        && self.deployments@[j].salt@ == salt@),
            decreases self.deployments@.len() - i,
        {
            let matches_from = self.deployments[i].status == from;
            if matches_from && bytes_eq(&self.deployments[i].salt, salt) {
                let mut entry = self.deployments.remove(i);
                entry.status = to;
                self.deployments.insert(i, entry);
                proof {
                    let ds_old = old(self).deployments@;
                    let idx = i as int;
                    let e = PendingDeployment { status: to, ..ds_old[idx] };
                    assert(self.deployments@ =~= ds_old.update(idx, e));
                    let ds_new = self.deployments@;
                    assert forall|a: int|
                        0 <= a < ds_new.len() implies (#[trigger] ds_new[a]).salt@
                        == ds_old[a].salt@ && (spec_entry_active(ds_new[a]) ==> spec_entry_active(
                        ds_old[a],
                    )) by {
                        if a != idx {
                            assert(ds_old.update(idx, e)[a] == ds_old[a]);
                        } else {
                            assert(ds_old.update(idx, e)[a] == e);
                        }
                    };
                    assert forall|a: int, b: int|
                        0 <= a < b < ds_new.len() && spec_entry_active(ds_new[a])
                            && spec_entry_active(ds_new[b]) implies ds_new[a].salt@
                        != ds_new[b].salt@ by {
                        assert(ds_old[a].salt@ != ds_old[b].salt@);
                    };
                }
                return true;
            }
            i = i + 1;
        }
        false
    }

    /// Looks `salt` up in the registry: only confirmed deployments are
    /// visible.
    pub fn get_instance(&self, salt: &Vec<u8>) -> (r: Option<String>)
        ensures
            match r {
                Some(id) => exists|i: int|
                    #[trigger] self.spec_confirmed_at(i, salt@) && id@
                        == self.deployments@[i].instance_id@,
                None => forall|i: int| !(#[trigger] self.spec_confirmed_at(i, salt@)),
            },
    {
        let mut i: usize = 0;
        while i < self.deployments.len()
            invariant
                0 <= i <= self.deployments@.len(),
                forall|j: int| 0 <= j < i ==> !(#[trigger] self.spec_confirmed_at(j, salt@)),
            decreases self.deployments@.len() - i,
        {
            let entry = &self.deployments[i];
            if entry.status == DeploymentStatus::Confirmed && bytes_eq(&entry.salt, salt) {
                proof {
                    assert(self.spec_confirmed_at(i as int, salt@));
                }
                return Some(entry.instance_id.clone());
            }
            i = i + 1;
        }
        None
    }
}

} // verus!
