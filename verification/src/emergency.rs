//! The emergency-unlock coordinator: the multi-party, time-locked,
//! cool-down-gated protocol that releases a bounded share of the vault
//! outside normal governance. A release is initiated, collects signatures
//! from distinct qualified signers, and executes once `MIN_SIGNERS` have
//! signed; what admits execution is the signature count, not the
//! collection window.

use vstd::prelude::*;

use crate::errors::ErrorCode;
use crate::identity::AccountId;
use crate::params::{
    valid_time,
    COOLDOWN_PERIOD,
    MAX_UNLOCK_PERCENTAGE,
    MIN_EMERGENCY_BALANCE,
    MIN_SIGNERS,
    MIN_UNLOCK_PERCENTAGE,
    SIGNATURE_WINDOW,
    TIME_LOCK_DURATION,
};

verus! {

/// The emergency system's settings, created once at initialization.
#[derive(Clone, Copy, Debug, PartialEq, Eq, Structural)]
pub struct EmergencyConfig {
    /// The administrator identity.
    pub admin: AccountId,
    /// When the vault's time lock started running.
    pub time_lock_start: i64,
    /// How long the time lock runs; fixed at `TIME_LOCK_DURATION`.
    pub time_lock_duration: i64,
    /// When the last release was executed; 0 while none ever was.
    pub last_unlock_time: i64,
    /// The gap two releases must keep; fixed at `COOLDOWN_PERIOD`.
    pub cooldown_period: i64,
    /// How many signatures a release needs; fixed at `MIN_SIGNERS`.
    pub min_signers: u8,
    /// The balance an initiator or signer must hold; fixed at
    /// `MIN_EMERGENCY_BALANCE`.
    pub min_wzn_balance: u64,
    /// The id the next release request will take; advanced on execution.
    pub current_unlock_id: u64,
}

impl EmergencyConfig {
    /// The settings' invariant: timestamps lie in the representable clock
    /// range, the policy constants carry their fixed values, and the id
    /// counter starts at one and never returns below it.
    pub open spec fn wf(self) -> bool {
        &&& valid_time(self.time_lock_start)
        &&& self.time_lock_duration == TIME_LOCK_DURATION
        &&& valid_time(self.last_unlock_time)
        &&& self.cooldown_period == COOLDOWN_PERIOD
        &&& self.min_signers == MIN_SIGNERS
        &&& self.min_wzn_balance == MIN_EMERGENCY_BALANCE
        &&& self.current_unlock_id >= 1
    }
}

/// One request to release a share of the vault.
#[derive(Clone, Debug, PartialEq, Eq)]
pub struct EmergencyUnlockRequest {
    /// The request's id, assigned from the coordinator's counter.
    pub id: u64,
    /// Who initiated the request; always its first signer.
    pub initiator: AccountId,
    /// The share of the vault to release, in whole percent.
    pub percentage: u8,
    /// Free-form text justifying the release.
    pub reason: String,
    /// When the request was created.
    pub created_at: i64,
    /// Until when new signatures are accepted: creation plus
    /// `SIGNATURE_WINDOW`.
    pub signature_deadline: i64,
    /// How many distinct signers have signed, the initiator included.
    pub signatures_count: u8,
    /// Whether the release has been executed; terminal.
    pub executed: bool,
    /// Whether the request was cancelled; terminal.
    pub cancelled: bool,
}

impl EmergencyUnlockRequest {
    /// A single request is well formed when its percentage is in the policy
    /// range, its deadline is the signature window after its creation, it
    /// holds at least its initiator's signature, and at most one terminal
    /// flag is set.
    pub open spec fn wf(self) -> bool {
        &&& self.id >= 1
        &&& MIN_UNLOCK_PERCENTAGE <= self.percentage <= MAX_UNLOCK_PERCENTAGE
        &&& valid_time(self.created_at)
        &&& self.signature_deadline == self.created_at + SIGNATURE_WINDOW
        &&& self.signatures_count >= 1
        &&& !(self.executed && self.cancelled)
    }
}

/// One signer's signature on one release request; at most one exists per
/// (request, signer).
#[derive(Clone, Copy, Debug, PartialEq, Eq, Structural)]
pub struct EmergencySignature {
    /// Who signed.
    pub signer: AccountId,
    /// The request that was signed.
    pub unlock_id: u64,
    /// When the signature was recorded.
    pub signed_at: i64,
    /// The signer's balance at signing time, kept for audit.
    pub wzn_balance: u64,
}

impl EmergencySignature {
    /// A recorded signature is well formed when it names a real request id
    /// and was recorded at a representable time.
    pub open spec fn wf(self) -> bool {
        &&& self.unlock_id >= 1
        &&& valid_time(self.signed_at)
    }
}

/// The emergency system's standing at one moment, for the host's display.
#[derive(Clone, Copy, Debug, PartialEq, Eq, Structural)]
pub struct EmergencyUnlockStatus {
    /// Whether the vault's time lock has expired.
    pub time_lock_expired: bool,
    /// Whether the cool-down since the last release has passed, or none
    /// ever ran.
    pub cooldown_expired: bool,
    /// When the time lock expires.
    pub time_lock_expires_at: i64,
    /// When the cool-down expires; 0 while no release ever ran.
    pub cooldown_expires_at: i64,
    /// The smallest release percentage the policy accepts.
    pub min_percentage: u8,
    /// The largest release percentage the policy accepts.
    pub max_percentage: u8,
    /// How many signatures a release needs.
    pub required_signatures: u8,
    /// The balance an initiator or signer must hold.
    pub min_wzn_balance: u64,
}

/// How many of the stored signatures belong to the request under
/// `unlock_id`.
pub open spec fn count_sigs(s: Seq<EmergencySignature>, unlock_id: u64) -> int
    decreases s.len(),
{
    if s.len() == 0 {
        0
    } else {
        count_sigs(s.drop_last(), unlock_id) + if s.last().unlock_id == unlock_id {
            1int
        } else {
            0int
        }
    }
}

/// Appending one signature raises the count of exactly its own request by
/// one.
proof fn lemma_count_push(s: Seq<EmergencySignature>, x: EmergencySignature, unlock_id: u64)
    ensures
        count_sigs(s.push(x), unlock_id) == count_sigs(s, unlock_id) + if x.unlock_id == unlock_id {
            1int
        } else {
            0int
        },
{
    assert(s.push(x).drop_last() =~= s);
    assert(s.push(x).last() == x);
}

/// A request none of the stored signatures names has count zero.
proof fn lemma_count_zero(s: Seq<EmergencySignature>, unlock_id: u64)
    requires
        forall|k: int| 0 <= k < s.len() ==> (#[trigger] s[k]).unlock_id != unlock_id,
    ensures
        count_sigs(s, unlock_id) == 0,
    decreases s.len(),
{
    if s.len() > 0 {
        assert(forall|k: int|
            0 <= k < s.drop_last().len() ==> (#[trigger] s.drop_last()[k]).unlock_id != unlock_id);
        lemma_count_zero(s.drop_last(), unlock_id);
    }
}

/// How much an executed release pays out: the vault balance times the
/// request's percentage, in whole token units rounded down.
pub open spec fn spec_unlock_amount(vault_balance: u64, percentage: u8) -> int {
    (vault_balance * percentage) / 100
}

/// The request a successful initiation by `initiator` at time `now`
/// creates, already carrying its initiator's signature.
pub open spec fn spec_new_request(
    id: u64,
    initiator: AccountId,
    percentage: u8,
    reason: String,
    now: i64,
) -> EmergencyUnlockRequest {
    EmergencyUnlockRequest {
        id,
        initiator,
        percentage,
        reason,
        created_at: now,
        signature_deadline: (now + SIGNATURE_WINDOW) as i64,
        signatures_count: 1,
        executed: false,
        cancelled: false,
    }
}

/// The record a signature by `signer` on request `unlock_id` at time `now`
/// leaves, with the balance the host read for the signer.
pub open spec fn spec_new_signature(
    unlock_id: u64,
    signer: AccountId,
    balance: u64,
    now: i64,
) -> EmergencySignature {
    EmergencySignature { signer, unlock_id, signed_at: now, wzn_balance: balance }
}

/// The coordinator: the emergency settings, every release request, and
/// every signature collected for them.
#[derive(Clone, Debug)]
pub struct EmergencyUnlockCoordinator {
    /// The emergency settings.
    pub config: EmergencyConfig,
    /// The release requests, with pairwise distinct ids.
    pub requests: Vec<EmergencyUnlockRequest>,
    /// The collected signatures, with pairwise distinct (request, signer)
    /// pairs.
    pub signatures: Vec<EmergencySignature>,
}

impl EmergencyUnlockCoordinator {
    /// The coordinator's invariant: the settings are well formed; request
    /// ids are unique, never ahead of the counter, and each request's
    /// signature count equals the number of signature records on file for
    /// it; signatures name pairwise distinct (request, signer) pairs and
    /// only existing requests.
    pub open spec fn wf(self) -> bool {
        &&& self.config.wf()
        &&& forall|i: int, j: int|
            0 <= i < j < self.requests@.len() ==> (#[trigger] self.requests@[i]).id != (
            #[trigger] self.requests@[j]).id
        &&& forall|i: int| 0 <= i < self.requests@.len() ==> (#[trigger] self.requests@[i]).wf()
        &&& forall|i: int|
            0 <= i < self.requests@.len() ==> (#[trigger] self.requests@[i]).id
                <= self.config.current_unlock_id
        &&& forall|i: int|
            0 <= i < self.requests@.len() ==> (#[trigger] self.requests@[i]).signatures_count
                as int == count_sigs(self.signatures@, self.requests@[i].id)
        &&& forall|i: int, j: int|
            0 <= i < j < self.signatures@.len() ==> !((#[trigger] self.signatures@[i]).unlock_id
                == (#[trigger] self.signatures@[j]).unlock_id && self.signatures@[i].signer
                == self.signatures@[j].signer)
        &&& forall|i: int| 0 <= i < self.signatures@.len() ==> (#[trigger] self.signatures@[i]).wf()
        &&& forall|i: int|
            0 <= i < self.signatures@.len() ==> self.has_request(
                (#[trigger] self.signatures@[i]).unlock_id,
            )
    }

    /// Whether some stored request carries `id`.
    pub open spec fn has_request(self, id: u64) -> bool {
        exists|i: int| 0 <= i < self.requests@.len() && (#[trigger] self.requests@[i]).id == id
    }

    /// The position of the request carrying `id`; meaningful only while
    /// `has_request` holds.
    pub open spec fn request_index(self, id: u64) -> int {
        choose|i: int| 0 <= i < self.requests@.len() && (#[trigger] self.requests@[i]).id == id
    }

    /// The request stored under `id`, if any.
    pub open spec fn request_of(self, id: u64) -> Option<EmergencyUnlockRequest> {
        if self.has_request(id) {
            Some(self.requests@[self.request_index(id)])
        } else {
            None
        }
    }

    /// Whether `signer` has signed request `unlock_id`.
    pub open spec fn has_sig(self, unlock_id: u64, signer: AccountId) -> bool {
        exists|i: int|
            0 <= i < self.signatures@.len() && (#[trigger] self.signatures@[i]).unlock_id
                == unlock_id && self.signatures@[i].signer == signer
    }

    /// The position of `signer`'s signature on `unlock_id`; meaningful only
    /// while `has_sig` holds.
    pub open spec fn sig_index(self, unlock_id: u64, signer: AccountId) -> int {
        choose|i: int|
            0 <= i < self.signatures@.len() && (#[trigger] self.signatures@[i]).unlock_id
                == unlock_id && self.signatures@[i].signer == signer
    }

    /// The signature `signer` left on request `unlock_id`, if any.
    pub open spec fn sig_of(self, unlock_id: u64, signer: AccountId) -> Option<
        EmergencySignature,
    > {
        if self.has_sig(unlock_id, signer) {
            Some(self.signatures@[self.sig_index(unlock_id, signer)])
        } else {
            None
        }
    }

    /// In a coordinator with unique ids, the request at a position carrying
    /// `id` is the request `request_of` answers.
    proof fn lemma_request_at(self, id: u64, i: int)
        requires
            self.wf(),
            0 <= i < self.requests@.len(),
            self.requests@[i].id == id,
        ensures
            self.has_request(id),
            self.request_index(id) == i,
            self.request_of(id) == Some(self.requests@[i]),
    {
        assert(self.has_request(id));
        let j = self.request_index(id);
        assert(0 <= j < self.requests@.len() && self.requests@[j].id == id);
        if i < j {
            assert(self.requests@[i].id != self.requests@[j].id);
        } else if j < i {
            assert(self.requests@[j].id != self.requests@[i].id);
        }
    }

    /// In a coordinator with unique (request, signer) pairs, the signature
    /// at a position carrying the pair is the signature `sig_of` answers.
    proof fn lemma_sig_at(self, unlock_id: u64, signer: AccountId, i: int)
        requires
            self.wf(),
            0 <= i < self.signatures@.len(),
            self.signatures@[i].unlock_id == unlock_id,
            self.signatures@[i].signer == signer,
        ensures
            self.has_sig(unlock_id, signer),
            self.sig_index(unlock_id, signer) == i,
            self.sig_of(unlock_id, signer) == Some(self.signatures@[i]),
    {
        assert(self.has_sig(unlock_id, signer));
        let j = self.sig_index(unlock_id, signer);
        assert(0 <= j < self.signatures@.len() && self.signatures@[j].unlock_id == unlock_id
            && self.signatures@[j].signer == signer);
        if i < j {
            assert(!(self.signatures@[i].unlock_id == self.signatures@[j].unlock_id
                && self.signatures@[i].signer == self.signatures@[j].signer));
        } else if j < i {
            assert(!(self.signatures@[j].unlock_id == self.signatures@[i].unlock_id
                && self.signatures@[j].signer == self.signatures@[i].signer));
        }
    }

    /// Sets up the emergency system at time `now`: the two-year time lock
    /// starts running, no release ever ran, and request ids start at one.
    pub fn initialize_emergency_unlock(admin: AccountId, now: i64) -> (r:
        EmergencyUnlockCoordinator)
        requires
            valid_time(now),
        ensures
            r.config == (EmergencyConfig {
                admin,
                time_lock_start: now,
                time_lock_duration: TIME_LOCK_DURATION,
                last_unlock_time: 0,
                cooldown_period: COOLDOWN_PERIOD,
                min_signers: MIN_SIGNERS,
                min_wzn_balance: MIN_EMERGENCY_BALANCE,
                current_unlock_id: 1,
            }),
            forall|id: u64| #[trigger] r.request_of(id) is None,
            forall|id: u64, signer: AccountId| #[trigger] r.sig_of(id, signer) is None,
            r.wf(),
    {
        let r = EmergencyUnlockCoordinator {
            config: EmergencyConfig {
                admin,
                time_lock_start: now,
                time_lock_duration: TIME_LOCK_DURATION,
                last_unlock_time: 0,
                cooldown_period: COOLDOWN_PERIOD,
                min_signers: MIN_SIGNERS,
                min_wzn_balance: MIN_EMERGENCY_BALANCE,
                current_unlock_id: 1,
            },
            requests: Vec::new(),
            signatures: Vec::new(),
        };
        proof {
            assert(forall|id: u64| !(#[trigger] r.has_request(id)));
            assert(forall|id: u64, signer: AccountId| !(#[trigger] r.has_sig(id, signer)));
        }
        r
    }

    /// Finds the position of the request carrying `id`, or reports that
    /// none exists.
    fn find_request_index(&self, id: u64) -> (r: Option<usize>)
        requires
            self.wf(),
        ensures
            match r {
                Some(i) => 0 <= i < self.requests@.len() && self.requests@[i as int].id == id
                    && self.request_of(id) == Some(self.requests@[i as int]),
                None => self.request_of(id) is None,
            },
    {
        let n = self.requests.len();
        let mut i: usize = 0;
        while i < n
            invariant
                n == self.requests@.len(),
                0 <= i <= n,
                self.wf(),
                forall|k: int| 0 <= k < i ==> (#[trigger] self.requests@[k]).id != id,
            decreases n - i,
        {
            if self.requests[i].id == id {
                proof {
                    self.lemma_request_at(id, i as int);
                }
                return Some(i);
            }
            i += 1;
        }
        proof {
            assert(!self.has_request(id));
        }
        None
    }

    /// Finds the position of `signer`'s signature on `unlock_id`, or
    /// reports that none exists.
    fn find_sig_index(&self, unlock_id: u64, signer: AccountId) -> (r: Option<usize>)
        requires
            self.wf(),
        ensures
            match r {
                Some(i) => 0 <= i < self.signatures@.len() && self.sig_of(unlock_id, signer)
                    == Some(self.signatures@[i as int]),
                None => self.sig_of(unlock_id, signer) is None,
            },
    {
        let n = self.signatures.len();
        let mut i: usize = 0;
        while i < n
            invariant
                n == self.signatures@.len(),
                0 <= i <= n,
                self.wf(),
                forall|k: int|
                    0 <= k < i ==> !((#[trigger] self.signatures@[k]).unlock_id == unlock_id
                        && self.signatures@[k].signer == signer),
            decreases n - i,
        {
            if self.signatures[i].unlock_id == unlock_id && self.signatures[i].signer == signer {
                proof {
                    self.lemma_sig_at(unlock_id, signer, i as int);
                }
                return Some(i);
            }
            i += 1;
        }
        proof {
            assert(!self.has_sig(unlock_id, signer));
        }
        None
    }
    /// Recording a fresh request together with its initiator's signature
    /// keeps the coordinator well formed: the new request starts with a
    /// count of one matching its single signature record, and every other
    /// request and signature stays as it was.
    proof fn lemma_initiated(self, post: EmergencyUnlockCoordinator, id: u64, initiator: AccountId)
        requires
            self.wf(),
            !self.has_request(id),
            id <= self.config.current_unlock_id,
            post.requests@ == self.requests@.push(post.requests@.last()),
            post.requests@.last().id == id,
            post.requests@.last().wf(),
            post.requests@.last().signatures_count == 1,
            post.signatures@ == self.signatures@.push(post.signatures@.last()),
            post.signatures@.last().unlock_id == id,
            post.signatures@.last().signer == initiator,
            post.signatures@.last().wf(),
            post.config == self.config,
        ensures
            post.wf(),
            post.request_of(id) == Some(post.requests@.last()),
            post.sig_of(id, initiator) == Some(post.signatures@.last()),
            forall|id2: u64|
                id2 != id ==> #[trigger] post.request_of(id2) == self.request_of(id2),
            forall|id2: u64, s2: AccountId|
                !(id2 == id && s2 == initiator) ==> #[trigger] post.sig_of(id2, s2) == self.sig_of(
                    id2,
                    s2,
                ),
    {
        let n = self.requests@.len() as int;
        let m = self.signatures@.len() as int;
        assert(forall|k: int| 0 <= k < n ==> (#[trigger] self.requests@[k]).id != id);
        assert forall|k: int| 0 <= k < m implies (#[trigger] self.signatures@[k]).unlock_id
            != id by {
            if self.signatures@[k].unlock_id == id {
                assert(self.has_request(id));
            }
        }
        // Request uniqueness survives the fresh id.
        assert forall|a: int, b: int| 0 <= a < b < post.requests@.len() implies (
        #[trigger] post.requests@[a]).id != (#[trigger] post.requests@[b]).id by {
            if b < n {
                assert(self.requests@[a].id != self.requests@[b].id);
            } else {
                assert(post.requests@[b].id == id);
                assert(self.requests@[a].id != id);
            }
        }
        // Signature pairs stay unique: nothing named the fresh id before.
        assert forall|a: int, b: int| 0 <= a < b < post.signatures@.len() implies !((
        #[trigger] post.signatures@[a]).unlock_id == (#[trigger] post.signatures@[b]).unlock_id
            && post.signatures@[a].signer == post.signatures@[b].signer) by {
            if b < m {
                assert(!(self.signatures@[a].unlock_id == self.signatures@[b].unlock_id
                    && self.signatures@[a].signer == self.signatures@[b].signer));
            } else {
                assert(post.signatures@[b].unlock_id == id);
                assert(self.signatures@[a].unlock_id != id);
            }
        }
        // Counts: the fresh request's single signature, everything else as before.
        lemma_count_push(self.signatures@, post.signatures@.last(), id);
        lemma_count_zero(self.signatures@, id);
        assert forall|k: int| 0 <= k < post.requests@.len() implies (
        #[trigger] post.requests@[k]).signatures_count as int == count_sigs(
            post.signatures@,
            post.requests@[k].id,
        ) by {
            if k < n {
                lemma_count_push(self.signatures@, post.signatures@.last(), self.requests@[k].id);
            }
        }
        // Every signature still names an existing request.
        assert forall|k: int| 0 <= k < post.signatures@.len() implies post.has_request(
            (#[trigger] post.signatures@[k]).unlock_id,
        ) by {
            if k < m {
                let rid = self.signatures@[k].unlock_id;
                assert(self.has_request(rid));
                let j = self.request_index(rid);
                assert(0 <= j < n && self.requests@[j].id == rid);
                assert(post.requests@[j].id == rid);
            } else {
                assert(post.requests@[n].id == id);
            }
        }
        post.lemma_request_at(id, n);
        post.lemma_sig_at(id, initiator, m);
        assert forall|id2: u64| id2 != id implies #[trigger] post.request_of(id2)
            == self.request_of(id2) by {
            if self.has_request(id2) {
                let j = self.request_index(id2);
                assert(0 <= j < n && self.requests@[j].id == id2);
                assert(post.requests@[j] == self.requests@[j]);
                self.lemma_request_at(id2, j);
                post.lemma_request_at(id2, j);
            } else {
                assert(forall|k: int|
                    0 <= k < post.requests@.len() ==> (#[trigger] post.requests@[k]).id != id2);
            }
        }
        assert forall|id2: u64, s2: AccountId| !(id2 == id && s2 == initiator) implies (
        #[trigger] post.sig_of(id2, s2)) == self.sig_of(id2, s2) by {
            if self.has_sig(id2, s2) {
                let j = self.sig_index(id2, s2);
                assert(0 <= j < m && self.signatures@[j].unlock_id == id2
                    && self.signatures@[j].signer == s2);
                assert(post.signatures@[j] == self.signatures@[j]);
                self.lemma_sig_at(id2, s2, j);
                post.lemma_sig_at(id2, s2, j);
            } else {
                assert(forall|k: int|
                    0 <= k < post.signatures@.len() ==> !((
                    #[trigger] post.signatures@[k]).unlock_id == id2 && post.signatures@[k].signer
                        == s2));
            }
        }
    }

    /// Raising one request's count by one while recording that one more
    /// signature keeps the coordinator well formed and leaves every other
    /// request and signature as it was.
    proof fn lemma_signed(
        self,
        post: EmergencyUnlockCoordinator,
        i: int,
        unlock_id: u64,
        signer: AccountId,
    )
        requires
            self.wf(),
            0 <= i < self.requests@.len(),
            self.requests@[i].id == unlock_id,
            !self.has_sig(unlock_id, signer),
            post.requests@ == self.requests@.update(i, post.requests@[i]),
            post.requests@[i].id == unlock_id,
            post.requests@[i].wf(),
            post.requests@[i].signatures_count == self.requests@[i].signatures_count + 1,
            post.signatures@ == self.signatures@.push(post.signatures@.last()),
            post.signatures@.last().unlock_id == unlock_id,
            post.signatures@.last().signer == signer,
            post.signatures@.last().wf(),
            post.config == self.config,
        ensures
            post.wf(),
            post.request_of(unlock_id) == Some(post.requests@[i]),
            post.sig_of(unlock_id, signer) == Some(post.signatures@.last()),
            forall|id2: u64|
                id2 != unlock_id ==> #[trigger] post.request_of(id2) == self.request_of(id2),
            forall|id2: u64, s2: AccountId|
                !(id2 == unlock_id && s2 == signer) ==> #[trigger] post.sig_of(id2, s2)
                    == self.sig_of(id2, s2),
    {
        let n = self.requests@.len() as int;
        let m = self.signatures@.len() as int;
        assert(forall|k: int|
            0 <= k < post.requests@.len() ==> (#[trigger] post.requests@[k]).id
                == self.requests@[k].id);
        assert forall|a: int, b: int| 0 <= a < b < post.requests@.len() implies (
        #[trigger] post.requests@[a]).id != (#[trigger] post.requests@[b]).id by {
            assert(self.requests@[a].id != self.requests@[b].id);
        }
        assert(forall|k: int|
            0 <= k < m ==> !((#[trigger] self.signatures@[k]).unlock_id == unlock_id
                && self.signatures@[k].signer == signer));
        assert forall|a: int, b: int| 0 <= a < b < post.signatures@.len() implies !((
        #[trigger] post.signatures@[a]).unlock_id == (#[trigger] post.signatures@[b]).unlock_id
            && post.signatures@[a].signer == post.signatures@[b].signer) by {
            if b < m {
                assert(!(self.signatures@[a].unlock_id == self.signatures@[b].unlock_id
                    && self.signatures@[a].signer == self.signatures@[b].signer));
            } else {
                assert(post.signatures@[b].unlock_id == unlock_id && post.signatures@[b].signer
                    == signer);
                assert(!(self.signatures@[a].unlock_id == unlock_id && self.signatures@[a].signer
                    == signer));
            }
        }
        assert forall|k: int| 0 <= k < post.requests@.len() implies (
        #[trigger] post.requests@[k]).signatures_count as int == count_sigs(
            post.signatures@,
            post.requests@[k].id,
        ) by {
            lemma_count_push(self.signatures@, post.signatures@.last(), self.requests@[k].id);
            if k != i {
                assert(self.requests@[k].id != unlock_id);
            }
        }
        assert forall|k: int| 0 <= k < post.signatures@.len() implies post.has_request(
            (#[trigger] post.signatures@[k]).unlock_id,
        ) by {
            if k < m {
                let rid = self.signatures@[k].unlock_id;
                assert(self.has_request(rid));
                let j = self.request_index(rid);
                assert(0 <= j < n && self.requests@[j].id == rid);
                assert(post.requests@[j].id == rid);
            } else {
                assert(post.requests@[i].id == unlock_id);
            }
        }
        post.lemma_request_at(unlock_id, i);
        post.lemma_sig_at(unlock_id, signer, m);
        assert forall|id2: u64| id2 != unlock_id implies #[trigger] post.request_of(id2)
            == self.request_of(id2) by {
            if self.has_request(id2) {
                let j = self.request_index(id2);
                assert(0 <= j < n && self.requests@[j].id == id2);
                assert(j != i);
                assert(post.requests@[j] == self.requests@[j]);
                self.lemma_request_at(id2, j);
                post.lemma_request_at(id2, j);
            } else {
                assert(forall|k: int|
                    0 <= k < post.requests@.len() ==> (#[trigger] post.requests@[k]).id != id2);
            }
        }
        assert forall|id2: u64, s2: AccountId| !(id2 == unlock_id && s2 == signer) implies (
        #[trigger] post.sig_of(id2, s2)) == self.sig_of(id2, s2) by {
            if self.has_sig(id2, s2) {
                let j = self.sig_index(id2, s2);
                assert(0 <= j < m && self.signatures@[j].unlock_id == id2
                    && self.signatures@[j].signer == s2);
                assert(post.signatures@[j] == self.signatures@[j]);
                self.lemma_sig_at(id2, s2, j);
                post.lemma_sig_at(id2, s2, j);
            } else {
                assert(forall|k: int|
                    0 <= k < post.signatures@.len() ==> !((
                    #[trigger] post.signatures@[k]).unlock_id == id2 && post.signatures@[k].signer
                        == s2));
            }
        }
    }

    /// Replacing one request with one carrying the same id and count — only
    /// its flags change — keeps the coordinator well formed, for any
    /// settings change that stays well formed and never lowers the id
    /// counter; every other request and all signatures stay as they were.
    proof fn lemma_request_updated(self, post: EmergencyUnlockCoordinator, i: int)
        requires
            self.wf(),
            0 <= i < self.requests@.len(),
            post.requests@ == self.requests@.update(i, post.requests@[i]),
            post.requests@[i].id == self.requests@[i].id,
            post.requests@[i].signatures_count == self.requests@[i].signatures_count,
            post.requests@[i].wf(),
            post.signatures@ == self.signatures@,
            post.config.wf(),
            post.config.current_unlock_id >= self.config.current_unlock_id,
        ensures
            post.wf(),
            post.request_of(self.requests@[i].id) == Some(post.requests@[i]),
            forall|id2: u64|
                id2 != self.requests@[i].id ==> #[trigger] post.request_of(id2)
                    == self.request_of(id2),
            forall|id2: u64, s2: AccountId|
                #[trigger] post.sig_of(id2, s2) == self.sig_of(id2, s2),
    {
        let id = self.requests@[i].id;
        let n = self.requests@.len() as int;
        assert(forall|k: int|
            0 <= k < post.requests@.len() ==> (#[trigger] post.requests@[k]).id
                == self.requests@[k].id);
        assert forall|a: int, b: int| 0 <= a < b < post.requests@.len() implies (
        #[trigger] post.requests@[a]).id != (#[trigger] post.requests@[b]).id by {
            assert(self.requests@[a].id != self.requests@[b].id);
        }
        assert forall|k: int| 0 <= k < post.signatures@.len() implies post.has_request(
            (#[trigger] post.signatures@[k]).unlock_id,
        ) by {
            let rid = self.signatures@[k].unlock_id;
            assert(self.has_request(rid));
            let j = self.request_index(rid);
            assert(0 <= j < n && self.requests@[j].id == rid);
            assert(post.requests@[j].id == rid);
        }
        post.lemma_request_at(id, i);
        assert forall|id2: u64| id2 != id implies #[trigger] post.request_of(id2)
            == self.request_of(id2) by {
            if self.has_request(id2) {
                let j = self.request_index(id2);
                assert(0 <= j < n && self.requests@[j].id == id2);
                assert(j != i);
                assert(post.requests@[j] == self.requests@[j]);
                self.lemma_request_at(id2, j);
                post.lemma_request_at(id2, j);
            } else {
                assert(forall|k: int|
                    0 <= k < post.requests@.len() ==> (#[trigger] post.requests@[k]).id != id2);
            }
        }
    }

    /// What an initiation attempt answers: the time lock must have expired,
    /// the cool-down since the last release must have passed (or none ever
    /// ran), the percentage must be in the policy range, the initiator
    /// needs the emergency balance, and the counter's id must still be
    /// free — it is taken by a pending request until an execution advances
    /// the counter.
    pub open spec fn initiate_outcome(
        self,
        initiator: AccountId,
        percentage: u8,
        balance: u64,
        now: i64,
    ) -> Result<(), ErrorCode> {
        if now < self.config.time_lock_start + self.config.time_lock_duration {
            Err(ErrorCode::TimeLockNotExpired)
        } else if self.config.last_unlock_time != 0 && now < self.config.last_unlock_time
            + self.config.cooldown_period {
            Err(ErrorCode::CooldownActive)
        } else if !(MIN_UNLOCK_PERCENTAGE <= percentage <= MAX_UNLOCK_PERCENTAGE) {
            Err(ErrorCode::InvalidUnlockPercentage)
        } else if balance < self.config.min_wzn_balance {
            Err(ErrorCode::InsufficientWznForEmergency)
        } else if self.request_of(self.config.current_unlock_id) is Some {
            Err(ErrorCode::RecordAlreadyExists)
        } else {
            Ok(())
        }
    }

    /// Initiates a release of `percentage` of the vault. The initiator
    /// signs atomically, so the fresh request starts with one signature.
    /// On failure nothing changes.
    pub fn initiate_emergency_unlock(
        &mut self,
        initiator: AccountId,
        percentage: u8,
        reason: String,
        balance: u64,
        now: i64,
    ) -> (r: Result<(), ErrorCode>)
        requires
            old(self).wf(),
            valid_time(now),
        ensures
            r == old(self).initiate_outcome(initiator, percentage, balance, now),
            r is Ok ==> final(self).request_of(old(self).config.current_unlock_id) == Some(
                spec_new_request(
                    old(self).config.current_unlock_id,
                    initiator,
                    percentage,
                    reason,
                    now,
                ),
            ),
            r is Ok ==> final(self).sig_of(old(self).config.current_unlock_id, initiator) == Some(
                spec_new_signature(old(self).config.current_unlock_id, initiator, balance, now),
            ),
            forall|id2: u64|
                id2 != old(self).config.current_unlock_id ==> #[trigger] final(self).request_of(
                    id2,
                ) == old(self).request_of(id2),
            forall|id2: u64, s2: AccountId|
                !(id2 == old(self).config.current_unlock_id && s2 == initiator)
                    ==> #[trigger] final(self).sig_of(id2, s2) == old(self).sig_of(id2, s2),
            final(self).config == old(self).config,
            r is Err ==> *final(self) == *old(self),
            final(self).wf(),
    {
        if now < self.config.time_lock_start + self.config.time_lock_duration {
            return Err(ErrorCode::TimeLockNotExpired);
        }
        if self.config.last_unlock_time != 0 && now < self.config.last_unlock_time
            + self.config.cooldown_period {
            return Err(ErrorCode::CooldownActive);
        }
        if percentage < MIN_UNLOCK_PERCENTAGE || percentage > MAX_UNLOCK_PERCENTAGE {
            return Err(ErrorCode::InvalidUnlockPercentage);
        }
        if balance < self.config.min_wzn_balance {
            return Err(ErrorCode::InsufficientWznForEmergency);
        }
        let id = self.config.current_unlock_id;
        if self.find_request_index(id).is_some() {
            return Err(ErrorCode::RecordAlreadyExists);
        }
        let ghost prior = *self;
        self.requests.push(
            EmergencyUnlockRequest {
                id,
                initiator,
                percentage,
                reason,
                created_at: now,
                signature_deadline: now + SIGNATURE_WINDOW,
                signatures_count: 1,
                executed: false,
                cancelled: false,
            },
        );
        self.signatures.push(
            EmergencySignature { signer: initiator, unlock_id: id, signed_at: now, wzn_balance: balance },
        );
        proof {
            prior.lemma_initiated(*self, id, initiator);
        }
        Ok(())
    }

    /// What a signing attempt answers: the request must exist with its
    /// collection window open and no terminal flag, the signer needs the
    /// emergency balance and must not have signed before, and the count
    /// must have room.
    pub open spec fn sign_outcome(
        self,
        unlock_id: u64,
        signer: AccountId,
        balance: u64,
        now: i64,
    ) -> Result<(), ErrorCode> {
        match self.request_of(unlock_id) {
            None => Err(ErrorCode::RecordNotFound),
            Some(req) => if now > req.signature_deadline {
                Err(ErrorCode::SignaturePeriodClosed)
            } else if req.executed {
                Err(ErrorCode::UnlockAlreadyExecuted)
            } else if req.cancelled {
                Err(ErrorCode::UnlockCancelled)
            } else if balance < self.config.min_wzn_balance {
                Err(ErrorCode::InsufficientWznForEmergency)
            } else if self.sig_of(unlock_id, signer) is Some {
                Err(ErrorCode::AlreadySigned)
            } else if req.signatures_count == u8::MAX {
                Err(ErrorCode::ArithmeticOverflow)
            } else {
                Ok(())
            },
        }
    }

    /// Signs the release request under `unlock_id`. Each signer counts once:
    /// a second signature by the same signer is refused on the record, not
    /// on a sentinel. On failure nothing changes.
    pub fn sign_emergency_unlock(
        &mut self,
        unlock_id: u64,
        signer: AccountId,
        balance: u64,
        now: i64,
    ) -> (r: Result<(), ErrorCode>)
        requires
            old(self).wf(),
            valid_time(now),
        ensures
            r == old(self).sign_outcome(unlock_id, signer, balance, now),
            r is Ok ==> (old(self).request_of(unlock_id) matches Some(req) && final(self).request_of(unlock_id) == Some(
                EmergencyUnlockRequest {
                    signatures_count: (req.signatures_count + 1) as u8,
                    ..req
                },
            )),
            r is Ok ==> final(self).sig_of(unlock_id, signer) == Some(
                spec_new_signature(unlock_id, signer, balance, now),
            ),
            forall|id2: u64|
                id2 != unlock_id ==> #[trigger] final(self).request_of(id2) == old(self).request_of(id2),
            forall|id2: u64, s2: AccountId|
                !(id2 == unlock_id && s2 == signer) ==> #[trigger] final(self).sig_of(id2, s2)
                    == old(self).sig_of(id2, s2),
            final(self).config == old(self).config,
            r is Err ==> *final(self) == *old(self),
            final(self).wf(),
    {
        let i = match self.find_request_index(unlock_id) {
            Some(i) => i,
            None => {
                return Err(ErrorCode::RecordNotFound);
            },
        };
        if now > self.requests[i].signature_deadline {
            return Err(ErrorCode::SignaturePeriodClosed);
        }
        if self.requests[i].executed {
            return Err(ErrorCode::UnlockAlreadyExecuted);
        }
        if self.requests[i].cancelled {
            return Err(ErrorCode::UnlockCancelled);
        }
        if balance < self.config.min_wzn_balance {
            return Err(ErrorCode::InsufficientWznForEmergency);
        }
        if self.find_sig_index(unlock_id, signer).is_some() {
            return Err(ErrorCode::AlreadySigned);
        }
        if self.requests[i].signatures_count == u8::MAX {
            return Err(ErrorCode::ArithmeticOverflow);
        }
        let ghost prior = *self;
        let req = &mut self.requests[i];
        req.signatures_count = req.signatures_count + 1;
        self.signatures.push(
            EmergencySignature { signer, unlock_id, signed_at: now, wzn_balance: balance },
        );
        proof {
            prior.lemma_signed(*self, i as int, unlock_id, signer);
        }
        Ok(())
    }

    /// What an execution attempt answers: the request must exist without a
    /// terminal flag and with at least the required signatures, and the id
    /// counter must have room. The collection window is deliberately not
    /// re-checked: it only bounds how long new signatures may be added.
    pub open spec fn execute_outcome(self, unlock_id: u64, vault_balance: u64, now: i64) -> Result<
        u64,
        ErrorCode,
    > {
        match self.request_of(unlock_id) {
            None => Err(ErrorCode::RecordNotFound),
            Some(req) => if req.executed {
                Err(ErrorCode::UnlockAlreadyExecuted)
            } else if req.cancelled {
                Err(ErrorCode::UnlockCancelled)
            } else if req.signatures_count < self.config.min_signers {
                Err(ErrorCode::InsufficientSignatures)
            } else if self.config.current_unlock_id == u64::MAX {
                Err(ErrorCode::ArithmeticOverflow)
            } else {
                Ok((spec_unlock_amount(vault_balance, req.percentage)) as u64)
            },
        }
    }

    /// Executes the release under `unlock_id` once enough signatures are
    /// on file, whatever the clock says. On success it returns the amount
    /// the host must move from the vault to the administrator's account —
    /// the request's share of `vault_balance`, rounded down — marks the
    /// request executed, records `now` as the last release time, and
    /// advances the id counter. On failure nothing changes and nothing is
    /// transferred.
    pub fn execute_emergency_unlock(&mut self, unlock_id: u64, vault_balance: u64, now: i64) -> (r:
        Result<u64, ErrorCode>)
        requires
            old(self).wf(),
            valid_time(now),
        ensures
            r == old(self).execute_outcome(unlock_id, vault_balance, now),
            r is Ok ==> (old(self).request_of(unlock_id) matches Some(req) && final(self).request_of(unlock_id) == Some(EmergencyUnlockRequest { executed: true, ..req })),
            r is Ok ==> final(self).config == (EmergencyConfig {
                last_unlock_time: now,
                current_unlock_id: (old(self).config.current_unlock_id + 1) as u64,
                ..old(self).config
            }),
            forall|id2: u64|
                id2 != unlock_id ==> #[trigger] final(self).request_of(id2) == old(self).request_of(id2),
            forall|id2: u64, s2: AccountId|
                #[trigger] final(self).sig_of(id2, s2) == old(self).sig_of(id2, s2),
            r is Err ==> *final(self) == *old(self),
            final(self).wf(),
    {
        let i = match self.find_request_index(unlock_id) {
            Some(i) => i,
            None => {
                return Err(ErrorCode::RecordNotFound);
            },
        };
        if self.requests[i].executed {
            return Err(ErrorCode::UnlockAlreadyExecuted);
        }
        if self.requests[i].cancelled {
            return Err(ErrorCode::UnlockCancelled);
        }
        if self.requests[i].signatures_count < self.config.min_signers {
            return Err(ErrorCode::InsufficientSignatures);
        }
        if self.config.current_unlock_id == u64::MAX {
            return Err(ErrorCode::ArithmeticOverflow);
        }
        let pct = self.requests[i].percentage;
        proof {
            assert((vault_balance as int) * (pct as int) <= u64::MAX as int * 255) by (nonlinear_arith)
                requires
                    vault_balance as int <= u64::MAX as int,
                    0 <= pct as int <= 255,
                    0 <= vault_balance as int,
            ;
        }
        let amount_wide: u128 = (vault_balance as u128) * (pct as u128) / 100;
        proof {
            vstd::arithmetic::mul::lemma_mul_is_commutative(vault_balance as int, pct as int);
            vstd::arithmetic::mul::lemma_mul_inequality(pct as int, 100, vault_balance as int);
            vstd::arithmetic::div_mod::lemma_div_is_ordered(
                vault_balance as int * pct as int,
                100 * vault_balance as int,
                100,
            );
            vstd::arithmetic::div_mod::lemma_div_multiples_vanish(vault_balance as int, 100);
        }
        let amount: u64 = amount_wide as u64;
        let ghost prior = *self;
        let req = &mut self.requests[i];
        req.executed = true;
        self.config.last_unlock_time = now;
        self.config.current_unlock_id = self.config.current_unlock_id + 1;
        proof {
            prior.lemma_request_updated(*self, i as int);
        }
        Ok(amount)
    }

    /// What a cancellation attempt answers: the request must exist, only
    /// its initiator or the administrator may cancel, and the request must
    /// not already be terminal.
    pub open spec fn cancel_outcome(self, unlock_id: u64, caller: AccountId) -> Result<
        (),
        ErrorCode,
    > {
        match self.request_of(unlock_id) {
            None => Err(ErrorCode::RecordNotFound),
            Some(req) => if caller != req.initiator && caller != self.config.admin {
                Err(ErrorCode::UnauthorizedCancel)
            } else if req.executed {
                Err(ErrorCode::UnlockAlreadyExecuted)
            } else if req.cancelled {
                Err(ErrorCode::UnlockAlreadyCancelled)
            } else {
                Ok(())
            },
        }
    }

    /// Cancels the release request under `unlock_id`. Only the initiator or
    /// the administrator may cancel, and only before execution;
    /// cancellation is terminal. On failure nothing changes.
    pub fn cancel_emergency_unlock(&mut self, unlock_id: u64, caller: AccountId) -> (r: Result<
        (),
        ErrorCode,
    >)
        requires
            old(self).wf(),
        ensures
            r == old(self).cancel_outcome(unlock_id, caller),
            r is Ok ==> (old(self).request_of(unlock_id) matches Some(req) && final(self).request_of(unlock_id) == Some(EmergencyUnlockRequest { cancelled: true, ..req })),
            forall|id2: u64|
                id2 != unlock_id ==> #[trigger] final(self).request_of(id2) == old(self).request_of(id2),
            forall|id2: u64, s2: AccountId|
                #[trigger] final(self).sig_of(id2, s2) == old(self).sig_of(id2, s2),
            final(self).config == old(self).config,
            r is Err ==> *final(self) == *old(self),
            final(self).wf(),
    {
        let i = match self.find_request_index(unlock_id) {
            Some(i) => i,
            None => {
                return Err(ErrorCode::RecordNotFound);
            },
        };
        if !(caller == self.requests[i].initiator) && !(caller == self.config.admin) {
            return Err(ErrorCode::UnauthorizedCancel);
        }
        if self.requests[i].executed {
            return Err(ErrorCode::UnlockAlreadyExecuted);
        }
        if self.requests[i].cancelled {
            return Err(ErrorCode::UnlockAlreadyCancelled);
        }
        let ghost prior = *self;
        let req = &mut self.requests[i];
        req.cancelled = true;
        proof {
            prior.lemma_request_updated(*self, i as int);
        }
        Ok(())
    }

    /// The emergency system's limits and standing at time `now`; no state
    /// changes.
    pub fn check_emergency_unlock_limits(&self, now: i64) -> (r: EmergencyUnlockStatus)
        requires
            self.config.wf(),
        ensures
            r.time_lock_expired == (now >= self.config.time_lock_start
                + self.config.time_lock_duration),
            r.cooldown_expired == (self.config.last_unlock_time == 0 || now
                >= self.config.last_unlock_time + self.config.cooldown_period),
            r.time_lock_expires_at == self.config.time_lock_start + self.config.time_lock_duration,
            r.cooldown_expires_at == if self.config.last_unlock_time == 0 {
                0
            } else {
                self.config.last_unlock_time + self.config.cooldown_period
            },
            r.min_percentage == MIN_UNLOCK_PERCENTAGE,
            r.max_percentage == MAX_UNLOCK_PERCENTAGE,
            r.required_signatures == self.config.min_signers,
            r.min_wzn_balance == self.config.min_wzn_balance,
    {
        let time_lock_expires_at = self.config.time_lock_start + self.config.time_lock_duration;
        let cooldown_expires_at = if self.config.last_unlock_time == 0 {
            0
        } else {
            self.config.last_unlock_time + self.config.cooldown_period
        };
        EmergencyUnlockStatus {
            time_lock_expired: now >= time_lock_expires_at,
            cooldown_expired: self.config.last_unlock_time == 0 || now >= self.config.last_unlock_time
                + self.config.cooldown_period,
            time_lock_expires_at,
            cooldown_expires_at,
            min_percentage: MIN_UNLOCK_PERCENTAGE,
            max_percentage: MAX_UNLOCK_PERCENTAGE,
            required_signatures: self.config.min_signers,
            min_wzn_balance: self.config.min_wzn_balance,
        }
    }
}

/// The signature gate: a live request short of `MIN_SIGNERS` signatures is
/// never executed, whatever the clock says — even long past the collection
/// window — and one holding at least `MIN_SIGNERS` executes (counter room
/// permitting) however little of the window has passed.
pub proof fn lemma_signature_gate(
    c: EmergencyUnlockCoordinator,
    unlock_id: u64,
    vault_balance: u64,
    now: i64,
)
    requires
        c.wf(),
        c.request_of(unlock_id) matches Some(req) && !req.executed && !req.cancelled,
    ensures
        c.request_of(unlock_id) matches Some(req) && req.signatures_count < MIN_SIGNERS
            ==> c.execute_outcome(unlock_id, vault_balance, now) == Err::<u64, ErrorCode>(
            ErrorCode::InsufficientSignatures,
        ),
        c.request_of(unlock_id) matches Some(req) ==> ((req.signatures_count >= MIN_SIGNERS
            && c.config.current_unlock_id < u64::MAX) ==> c.execute_outcome(
            unlock_id,
            vault_balance,
            now,
        ) == Ok::<u64, ErrorCode>((spec_unlock_amount(vault_balance, req.percentage)) as u64)),
{
}

/// The signature count of every stored request is exact: it equals the
/// number of signature records on file for that request, and those records
/// name pairwise distinct signers, so a count of `MIN_SIGNERS` means
/// `MIN_SIGNERS` different signers.
pub proof fn lemma_signature_count_exact(c: EmergencyUnlockCoordinator, unlock_id: u64)
    requires
        c.wf(),
    ensures
        c.request_of(unlock_id) matches Some(req) ==> req.signatures_count as int == count_sigs(
            c.signatures@,
            unlock_id,
        ),
{
    if c.has_request(unlock_id) {
        let i = c.request_index(unlock_id);
        assert(0 <= i < c.requests@.len() && c.requests@[i].id == unlock_id);
        assert(c.requests@[i].signatures_count as int == count_sigs(c.signatures@, unlock_id));
    }
}

/// The cool-down gate, boundary inclusive: once a release ran at the
/// recorded last unlock time, a new initiation that passes the time lock
/// and every other condition is refused while the clock is short of that
/// time plus `COOLDOWN_PERIOD`, and accepted exactly from that boundary on.
pub proof fn lemma_cooldown_boundary(
    c: EmergencyUnlockCoordinator,
    initiator: AccountId,
    percentage: u8,
    balance: u64,
    t2: i64,
)
    requires
        c.wf(),
        c.config.last_unlock_time != 0,
        t2 >= c.config.time_lock_start + c.config.time_lock_duration,
        MIN_UNLOCK_PERCENTAGE <= percentage <= MAX_UNLOCK_PERCENTAGE,
        balance >= MIN_EMERGENCY_BALANCE,
        c.request_of(c.config.current_unlock_id) is None,
    ensures
        t2 < c.config.last_unlock_time + COOLDOWN_PERIOD ==> c.initiate_outcome(
            initiator,
            percentage,
            balance,
            t2,
        ) == Err::<(), ErrorCode>(ErrorCode::CooldownActive),
        t2 >= c.config.last_unlock_time + COOLDOWN_PERIOD ==> c.initiate_outcome(
            initiator,
            percentage,
            balance,
            t2,
        ) == Ok::<(), ErrorCode>(()),
{
}

/// Executing a release is not repeatable: once its request is marked
/// executed, every further execution attempt reports it as already
/// executed, so the vault is debited at most once per request.
pub proof fn lemma_unlock_execute_idempotent(
    c: EmergencyUnlockCoordinator,
    unlock_id: u64,
    vault_balance: u64,
    now: i64,
)
    requires
        c.wf(),
        c.request_of(unlock_id) matches Some(req) && req.executed,
    ensures
        c.execute_outcome(unlock_id, vault_balance, now) == Err::<u64, ErrorCode>(
            ErrorCode::UnlockAlreadyExecuted,
        ),
{
}

} // verus!
