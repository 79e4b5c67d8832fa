//! The access-pass registry: per-user paid access windows. A qualifying
//! payment grants a pass that lasts `ACCESS_PASS_DURATION`; while a user's
//! pass is active, a further purchase is refused, so passes never stack.

use vstd::prelude::*;

use crate::config::GlobalConfig;
use crate::errors::ErrorCode;
use crate::identity::AccountId;
use crate::params::{valid_time, ACCESS_PASS_DURATION, MAX_BURN_AMOUNT, MIN_BURN_AMOUNT};

verus! {

/// One user's paid access window.
#[derive(Clone, Copy, Debug, PartialEq, Eq, Structural)]
pub struct UserAccessInfo {
    /// The user the pass belongs to.
    pub user: AccountId,
    /// When the payment that bought this pass was made.
    pub burn_timestamp: i64,
    /// When the pass stops granting access; always the payment time plus
    /// `ACCESS_PASS_DURATION`.
    pub access_expires: i64,
    /// What was paid for this pass, in raw token units.
    pub amount_burned: u64,
}

impl UserAccessInfo {
    /// A single pass is well formed when its timestamps lie in the
    /// representable clock range, its window is exactly the pass duration,
    /// and its payment was in the accepted range.
    pub open spec fn wf(self) -> bool {
        &&& valid_time(self.burn_timestamp)
        &&& self.access_expires == self.burn_timestamp + ACCESS_PASS_DURATION
        &&& MIN_BURN_AMOUNT <= self.amount_burned <= MAX_BURN_AMOUNT
    }
}

/// The pass a successful payment of `amount` by `user` at time `now` creates.
pub open spec fn spec_new_pass(user: AccountId, amount: u64, now: i64) -> UserAccessInfo {
    UserAccessInfo {
        user,
        burn_timestamp: now,
        access_expires: (now + ACCESS_PASS_DURATION) as i64,
        amount_burned: amount,
    }
}

/// The registry of every user's current pass, at most one per user.
#[derive(Clone, Debug)]
pub struct AccessPassRegistry {
    /// The recorded passes; no two share a user.
    pub passes: Vec<UserAccessInfo>,
}

impl AccessPassRegistry {
    /// The registry's invariant: users are unique and every stored pass is
    /// well formed.
    pub open spec fn wf(self) -> bool {
        &&& forall|i: int, j: int|
            0 <= i < j < self.passes@.len() ==> (#[trigger] self.passes@[i]).user != (
            #[trigger] self.passes@[j]).user
        &&& forall|i: int| 0 <= i < self.passes@.len() ==> (#[trigger] self.passes@[i]).wf()
    }

    /// Whether some stored pass belongs to `user`.
    pub open spec fn has_pass(self, user: AccountId) -> bool {
        exists|i: int| 0 <= i < self.passes@.len() && (#[trigger] self.passes@[i]).user == user
    }

    /// The position of `user`'s pass; meaningful only while `has_pass` holds.
    pub open spec fn pass_index(self, user: AccountId) -> int {
        choose|i: int| 0 <= i < self.passes@.len() && (#[trigger] self.passes@[i]).user == user
    }

    /// The pass on file for `user`, if any.
    pub open spec fn pass_of(self, user: AccountId) -> Option<UserAccessInfo> {
        if self.has_pass(user) {
            Some(self.passes@[self.pass_index(user)])
        } else {
            None
        }
    }

    /// Whether `user` holds a pass that is still active at time `now`.
    pub open spec fn spec_has_access(self, user: AccountId, now: i64) -> bool {
        match self.pass_of(user) {
            Some(p) => now < p.access_expires,
            None => false,
        }
    }

    /// In a registry with unique users, the pass at a position holding
    /// `user` is the pass `pass_of` answers.
    proof fn lemma_pass_at(self, user: AccountId, i: int)
        requires
            self.wf(),
            0 <= i < self.passes@.len(),
            self.passes@[i].user == user,
        ensures
            self.has_pass(user),
            self.pass_index(user) == i,
            self.pass_of(user) == Some(self.passes@[i]),
    {
        assert(self.has_pass(user));
        let j = self.pass_index(user);
        assert(0 <= j < self.passes@.len() && self.passes@[j].user == user);
        if i < j {
            assert(self.passes@[i].user != self.passes@[j].user);
        } else if j < i {
            assert(self.passes@[j].user != self.passes@[i].user);
        }
    }

    /// An empty registry: nobody holds a pass.
    pub fn new() -> (r: AccessPassRegistry)
        ensures
            r.wf(),
            forall|user: AccountId| #[trigger] r.pass_of(user) is None,
    {
        let r = AccessPassRegistry { passes: Vec::new() };
        proof {
            assert(forall|user: AccountId| !(#[trigger] r.has_pass(user)));
        }
        r
    }

    /// Finds the position of `user`'s pass, or reports that none exists.
    fn find_pass_index(&self, user: AccountId) -> (r: Option<usize>)
        requires
            self.wf(),
        ensures
            match r {
                Some(i) => 0 <= i < self.passes@.len() && self.pass_of(user) == Some(
                    self.passes@[i as int],
                ) && self.passes@[i as int].user == user,
                None => self.pass_of(user) is None,
            },
    {
        let n = self.passes.len();
        let mut i: usize = 0;
        while i < n
            invariant
                n == self.passes@.len(),
                0 <= i <= n,
                self.wf(),
                forall|k: int| 0 <= k < i ==> (#[trigger] self.passes@[k]).user != user,
            decreases n - i,
        {
            if self.passes[i].user == user {
                proof {
                    self.lemma_pass_at(user, i as int);
                }
                return Some(i);
            }
            i += 1;
        }
        proof {
            assert(!self.has_pass(user));
        }
        None
    }

    /// Whether `user` may use the gated resource at time `now`. A user with
    /// no pass on file has no access; no state changes.
    pub fn check_access(&self, user: AccountId, now: i64) -> (r: bool)
        requires
            self.wf(),
        ensures
            r == self.spec_has_access(user, now),
    {
        match self.find_pass_index(user) {
            Some(i) => now < self.passes[i].access_expires,
            None => false,
        }
    }

    /// What a purchase attempt answers: the payment must be in the accepted
    /// range, and the buyer's current pass, if any, must have expired.
    pub open spec fn burn_outcome(self, user: AccountId, amount: u64, now: i64) -> Result<
        (),
        ErrorCode,
    > {
        if !(MIN_BURN_AMOUNT <= amount <= MAX_BURN_AMOUNT) {
            Err(ErrorCode::InvalidBurnAmount)
        } else if self.spec_has_access(user, now) {
            Err(ErrorCode::AccessStillActive)
        } else {
            Ok(())
        }
    }

    /// Burns `amount` from `user` for a fresh pass running from `now`. On
    /// success the host moves `amount` from the user to the reserve vault;
    /// on failure nothing changes and nothing is transferred.
    pub fn burn_for_pass(&mut self, user: AccountId, amount: u64, now: i64) -> (r: Result<
        (),
        ErrorCode,
    >)
        requires
            old(self).wf(),
            valid_time(now),
        ensures
            r == old(self).burn_outcome(user, amount, now),
            r is Ok ==> final(self).pass_of(user) == Some(spec_new_pass(user, amount, now)),
            forall|other: AccountId|
                other != user ==> #[trigger] final(self).pass_of(other) == old(self).pass_of(
                    other,
                ),
            r is Err ==> *final(self) == *old(self),
            final(self).wf(),
    {
        if amount < MIN_BURN_AMOUNT || amount > MAX_BURN_AMOUNT {
            return Err(ErrorCode::InvalidBurnAmount);
        }
        let pass = UserAccessInfo {
            user,
            burn_timestamp: now,
            access_expires: now + ACCESS_PASS_DURATION,
            amount_burned: amount,
        };
        match self.find_pass_index(user) {
            Some(i) => {
                if now < self.passes[i].access_expires {
                    return Err(ErrorCode::AccessStillActive);
                }
                let ghost prior = *self;
                self.passes.set(i, pass);
                proof {
                    prior.lemma_pass_replaced(*self, user, i as int);
                    self.lemma_pass_at(user, i as int);
                }
                Ok(())
            },
            None => {
                let ghost prior = *self;
                self.passes.push(pass);
                proof {
                    prior.lemma_pass_appended(*self, user);
                    self.lemma_pass_at(user, prior.passes@.len() as int);
                }
                Ok(())
            },
        }
    }

    /// Replacing the pass at `user`'s position keeps the registry well
    /// formed and leaves every other user's pass as it was.
    proof fn lemma_pass_replaced(self, post: AccessPassRegistry, user: AccountId, i: int)
        requires
            self.wf(),
            0 <= i < self.passes@.len(),
            self.passes@[i].user == user,
            post.passes@ == self.passes@.update(i, post.passes@[i]),
            post.passes@[i].user == user,
            post.passes@[i].wf(),
        ensures
            post.wf(),
            forall|other: AccountId|
                other != user ==> #[trigger] post.pass_of(other) == self.pass_of(other),
    {
        assert forall|other: AccountId| other != user implies #[trigger] post.pass_of(other)
            == self.pass_of(other) by {
            if self.has_pass(other) {
                let j = self.pass_index(other);
                assert(0 <= j < self.passes@.len() && self.passes@[j].user == other);
                assert(post.passes@[j] == self.passes@[j]);
                self.lemma_pass_at(other, j);
                post.lemma_pass_at(other, j);
            } else {
                assert(forall|k: int|
                    0 <= k < post.passes@.len() ==> (#[trigger] post.passes@[k]).user != other);
            }
        }
    }

    /// Appending a pass for a user with none on file keeps the registry well
    /// formed and leaves every other user's pass as it was.
    proof fn lemma_pass_appended(self, post: AccessPassRegistry, user: AccountId)
        requires
            self.wf(),
            !self.has_pass(user),
            post.passes@ == self.passes@.push(post.passes@.last()),
            post.passes@.last().user == user,
            post.passes@.last().wf(),
        ensures
            post.wf(),
            forall|other: AccountId|
                other != user ==> #[trigger] post.pass_of(other) == self.pass_of(other),
    {
        let n = self.passes@.len() as int;
        assert(forall|k: int| 0 <= k < n ==> (#[trigger] self.passes@[k]).user != user);
        assert forall|i: int, j: int| 0 <= i < j < post.passes@.len() implies (
        #[trigger] post.passes@[i]).user != (#[trigger] post.passes@[j]).user by {
            if j < n {
                assert(self.passes@[i].user != self.passes@[j].user);
            } else {
                assert(post.passes@[j].user == user);
                assert(self.passes@[i].user != user);
            }
        }
        assert forall|other: AccountId| other != user implies #[trigger] post.pass_of(other)
            == self.pass_of(other) by {
            if self.has_pass(other) {
                let j = self.pass_index(other);
                assert(0 <= j < n && self.passes@[j].user == other);
                assert(post.passes@[j] == self.passes@[j]);
                self.lemma_pass_at(other, j);
                post.lemma_pass_at(other, j);
            } else {
                assert(forall|k: int|
                    0 <= k < post.passes@.len() ==> (#[trigger] post.passes@[k]).user != other);
            }
        }
    }

    /// What a sponsored purchase attempt answers: the engine must be in
    /// sponsor-pays mode; the purchase itself is judged exactly as
    /// `burn_outcome` does.
    pub open spec fn sponsored_burn_outcome(
        self,
        config: GlobalConfig,
        user: AccountId,
        amount: u64,
        now: i64,
    ) -> Result<(), ErrorCode> {
        if config.fee_mode != 1 {
            Err(ErrorCode::WrongFeeMode)
        } else {
            self.burn_outcome(user, amount, now)
        }
    }

    /// Burns `amount` from `user` for a fresh pass while a sponsor pays the
    /// incidental call fee; refused unless the engine is in sponsor-pays
    /// mode. Pass semantics are exactly those of `burn_for_pass`.
    pub fn burn_for_pass_with_fee_payer(
        &mut self,
        config: &GlobalConfig,
        user: AccountId,
        amount: u64,
        now: i64,
    ) -> (r: Result<(), ErrorCode>)
        requires
            old(self).wf(),
            valid_time(now),
        ensures
            r == old(self).sponsored_burn_outcome(*config, user, amount, now),
            r is Ok ==> final(self).pass_of(user) == Some(spec_new_pass(user, amount, now)),
            forall|other: AccountId|
                other != user ==> #[trigger] final(self).pass_of(other) == old(self).pass_of(
                    other,
                ),
            r is Err ==> *final(self) == *old(self),
            final(self).wf(),
    {
        if config.fee_mode != 1 {
            return Err(ErrorCode::WrongFeeMode);
        }
        self.burn_for_pass(user, amount, now)
    }
}

/// Every pass the registry holds grants access for exactly
/// `ACCESS_PASS_DURATION` after the payment that bought it.
pub proof fn lemma_pass_window(s: AccessPassRegistry, user: AccountId)
    requires
        s.wf(),
    ensures
        s.pass_of(user) matches Some(p) ==> p.access_expires == p.burn_timestamp
            + ACCESS_PASS_DURATION,
{
    if s.has_pass(user) {
        let i = s.pass_index(user);
        assert(0 <= i < s.passes@.len() && s.passes@[i].user == user);
        assert(s.passes@[i].wf());
    }
}

/// A granted pass blocks every further purchase until it expires: with a
/// pass bought at `t` on file, a purchase attempt in the accepted payment
/// range at any time before `t + ACCESS_PASS_DURATION` is refused as still
/// active.
pub proof fn lemma_burn_no_stacking(
    s: AccessPassRegistry,
    user: AccountId,
    amount: u64,
    t: i64,
    amount2: u64,
    t2: i64,
)
    requires
        s.wf(),
        s.pass_of(user) == Some(spec_new_pass(user, amount, t)),
        valid_time(t),
        t2 < t + ACCESS_PASS_DURATION,
        MIN_BURN_AMOUNT <= amount2 <= MAX_BURN_AMOUNT,
    ensures
        s.burn_outcome(user, amount2, t2) == Err::<(), ErrorCode>(ErrorCode::AccessStillActive),
{
    assert(spec_new_pass(user, amount, t).access_expires == t + ACCESS_PASS_DURATION);
    assert(s.spec_has_access(user, t2));
}

} // verus!
