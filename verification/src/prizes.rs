//! The prize ledger: batched reward distributions paid from the vault. A
//! batch is submitted with parallel recipient and amount lists, executed at
//! most once — paying out exactly its recorded total — and may be cancelled
//! before execution; cancellation actually blocks a later execution.

use vstd::prelude::*;

use crate::errors::ErrorCode;
use crate::identity::AccountId;
use crate::params::{valid_time, MAX_RECIPIENTS};

verus! {

/// The prize system's settings and running totals.
#[derive(Clone, Copy, Debug, PartialEq, Eq, Structural)]
pub struct PrizeConfig {
    /// The administrator identity.
    pub admin: AccountId,
    /// Everything ever paid out by executed distributions.
    pub total_distributed: u64,
    /// The running season number, starting at one.
    pub current_season: u32,
    /// When the current season started.
    pub season_start_time: i64,
    /// How many distributions were ever submitted.
    pub distribution_count: u64,
}

/// One batched reward distribution.
#[derive(Clone, Debug, PartialEq, Eq)]
pub struct PrizeDistribution {
    /// The distribution's id: its submission rank, starting at one.
    pub id: u64,
    /// Who submitted the batch.
    pub admin: AccountId,
    /// The batch's total payout: always the sum of `amounts`.
    pub total_amount: u64,
    /// How many recipients the batch names: always the list's length.
    pub recipients_count: u32,
    /// Free-form text naming the occasion.
    pub reason: String,
    /// When the batch was submitted.
    pub created_at: i64,
    /// Whether the batch has been paid out; terminal.
    pub executed: bool,
    /// Whether the batch was cancelled before payout; terminal.
    pub cancelled: bool,
    /// The season the batch was submitted in.
    pub season: u32,
    /// The winners, parallel to `amounts`.
    pub recipients: Vec<AccountId>,
    /// The per-winner payouts, parallel to `recipients`.
    pub amounts: Vec<u64>,
}

/// The sum of a list of amounts, as an unbounded integer.
pub open spec fn sum_amounts(s: Seq<u64>) -> int
    decreases s.len(),
{
    if s.len() == 0 {
        0
    } else {
        sum_amounts(s.drop_last()) + s.last()
    }
}

/// A sum over any prefix never exceeds the sum over the whole list.
proof fn lemma_sum_prefix(s: Seq<u64>, i: int)
    requires
        0 <= i <= s.len(),
    ensures
        sum_amounts(s.subrange(0, i)) <= sum_amounts(s),
    decreases s.len() - i,
{
    if i < s.len() {
        assert(s.subrange(0, i + 1).drop_last() =~= s.subrange(0, i));
        assert(s.subrange(0, i + 1).last() == s[i]);
        lemma_sum_prefix(s, i + 1);
    } else {
        assert(s.subrange(0, i) =~= s);
    }
}

impl PrizeDistribution {
    /// A single distribution is well formed when its lists are parallel and
    /// within the batch bound, its counters mirror them, its total is their
    /// sum, and at most one terminal flag is set.
    pub open spec fn wf(self) -> bool {
        &&& self.id >= 1
        &&& self.recipients@.len() == self.amounts@.len()
        &&& self.recipients@.len() <= MAX_RECIPIENTS
        &&& self.recipients_count == self.recipients@.len()
        &&& self.total_amount as int == sum_amounts(self.amounts@)
        &&& valid_time(self.created_at)
        &&& self.season >= 1
        &&& !(self.executed && self.cancelled)
    }
}

/// The ledger: the prize settings and every distribution ever submitted,
/// in submission order.
#[derive(Clone, Debug)]
pub struct PrizeLedger {
    /// The prize settings and totals.
    pub config: PrizeConfig,
    /// The distributions; the one at position `k` carries id `k + 1`.
    pub distributions: Vec<PrizeDistribution>,
}

impl PrizeLedger {
    /// The ledger's invariant: the season counter starts at one, the
    /// submission counter equals the number of stored distributions, and
    /// each stored distribution is well formed and carries its submission
    /// rank as id.
    pub open spec fn wf(self) -> bool {
        &&& self.config.current_season >= 1
        &&& valid_time(self.config.season_start_time)
        &&& self.config.distribution_count as int == self.distributions@.len()
        &&& forall|i: int|
            0 <= i < self.distributions@.len() ==> (#[trigger] self.distributions@[i]).wf()
        &&& forall|i: int|
            0 <= i < self.distributions@.len() ==> (#[trigger] self.distributions@[i]).id == i + 1
    }

    /// The distribution stored under `id`, if any: ids are submission
    /// ranks, so the lookup is direct.
    pub open spec fn distribution_of(self, id: u64) -> Option<PrizeDistribution> {
        if 1 <= id <= self.distributions@.len() {
            Some(self.distributions@[id - 1])
        } else {
            None
        }
    }

    /// Sets up the prize system at time `now`: season one, nothing
    /// distributed, no batches.
    pub fn initialize_prize_distribution(admin: AccountId, now: i64) -> (r: PrizeLedger)
        requires
            valid_time(now),
        ensures
            r.config == (PrizeConfig {
                admin,
                total_distributed: 0,
                current_season: 1,
                season_start_time: now,
                distribution_count: 0,
            }),
            forall|id: u64| #[trigger] r.distribution_of(id) is None,
            r.wf(),
    {
        PrizeLedger {
            config: PrizeConfig {
                admin,
                total_distributed: 0,
                current_season: 1,
                season_start_time: now,
                distribution_count: 0,
            },
            distributions: Vec::new(),
        }
    }

    /// What a submission attempt answers: only the administrator may
    /// submit, the lists must be parallel and within the batch bound, the
    /// vault must cover the batch's sum, and the submission counter must
    /// have room.
    pub open spec fn submit_outcome(
        self,
        caller: AccountId,
        recipients: Seq<AccountId>,
        amounts: Seq<u64>,
        vault_balance: u64,
    ) -> Result<(), ErrorCode> {
        if caller != self.config.admin {
            Err(ErrorCode::Unauthorized)
        } else if recipients.len() != amounts.len() {
            Err(ErrorCode::MismatchedRecipientsAmounts)
        } else if recipients.len() > MAX_RECIPIENTS {
            Err(ErrorCode::TooManyRecipients)
        } else if sum_amounts(amounts) > vault_balance {
            Err(ErrorCode::InsufficientVaultBalance)
        } else if self.config.distribution_count == u64::MAX {
            Err(ErrorCode::ArithmeticOverflow)
        } else {
            Ok(())
        }
    }

    /// Submits a reward batch under the next id. Administrator only; the
    /// vault balance the host read must cover the batch's sum. The batch is
    /// recorded unexecuted with the current season; nothing is transferred
    /// until execution, and on failure nothing changes.
    pub fn submit_rewards(
        &mut self,
        caller: AccountId,
        recipients: Vec<AccountId>,
        amounts: Vec<u64>,
        reason: String,
        vault_balance: u64,
        now: i64,
    ) -> (r: Result<(), ErrorCode>)
        requires
            old(self).wf(),
            valid_time(now),
        ensures
            r == old(self).submit_outcome(caller, recipients@, amounts@, vault_balance),
            r is Ok ==> final(self).distribution_of(
                (old(self).config.distribution_count + 1) as u64,
            ) == Some(
                PrizeDistribution {
                    id: (old(self).config.distribution_count + 1) as u64,
                    admin: caller,
                    total_amount: (sum_amounts(amounts@)) as u64,
                    recipients_count: recipients@.len() as u32,
                    reason,
                    created_at: now,
                    executed: false,
                    cancelled: false,
                    season: old(self).config.current_season,
                    recipients,
                    amounts,
                },
            ),
            r is Ok ==> final(self).config == (PrizeConfig {
                distribution_count: (old(self).config.distribution_count + 1) as u64,
                ..old(self).config
            }),
            forall|id2: u64|
                id2 != ((old(self).config.distribution_count + 1) as u64)
                    ==> #[trigger] final(self).distribution_of(id2) == old(self).distribution_of(
                    id2,
                ),
            r is Err ==> *final(self) == *old(self),
            final(self).wf(),
    {
        if !(caller == self.config.admin) {
            return Err(ErrorCode::Unauthorized);
        }
        if recipients.len() != amounts.len() {
            return Err(ErrorCode::MismatchedRecipientsAmounts);
        }
        if recipients.len() > MAX_RECIPIENTS {
            return Err(ErrorCode::TooManyRecipients);
        }
        let n = amounts.len();
        let mut total: u64 = 0;
        let mut k: usize = 0;
        while k < n
            invariant
                n == amounts@.len(),
                0 <= k <= n,
                total as int == sum_amounts(amounts@.subrange(0, k as int)),
                *self == *old(self),
                self.wf(),
                caller == self.config.admin,
                recipients@.len() == amounts@.len(),
                recipients@.len() <= MAX_RECIPIENTS,
            decreases n - k,
        {
            let a = amounts[k];
            proof {
                assert(amounts@.subrange(0, k as int + 1).drop_last() =~= amounts@.subrange(
                    0,
                    k as int,
                ));
                assert(amounts@.subrange(0, k as int + 1).last() == amounts@[k as int]);
            }
            if a > u64::MAX - total {
                proof {
                    lemma_sum_prefix(amounts@, k as int + 1);
                }
                return Err(ErrorCode::InsufficientVaultBalance);
            }
            total = total + a;
            k += 1;
        }
        proof {
            assert(amounts@.subrange(0, n as int) =~= amounts@);
        }
        if total > vault_balance {
            return Err(ErrorCode::InsufficientVaultBalance);
        }
        if self.config.distribution_count == u64::MAX {
            return Err(ErrorCode::ArithmeticOverflow);
        }
        let id = self.config.distribution_count + 1;
        let recipients_count = recipients.len() as u32;
        let ghost prior = *self;
        self.distributions.push(
            PrizeDistribution {
                id,
                admin: caller,
                total_amount: total,
                recipients_count,
                reason,
                created_at: now,
                executed: false,
                cancelled: false,
                season: self.config.current_season,
                recipients,
                amounts,
            },
        );
        self.config.distribution_count = self.config.distribution_count + 1;
        proof {
            assert(forall|id2: u64|
                id2 != id ==> #[trigger] self.distribution_of(id2) == prior.distribution_of(id2));
        }
        Ok(())
    }

    /// What an execution attempt answers: the distribution must exist with
    /// no terminal flag, and the running payout total must have room.
    pub open spec fn execute_outcome(self, distribution_id: u64) -> Result<u64, ErrorCode> {
        match self.distribution_of(distribution_id) {
            None => Err(ErrorCode::RecordNotFound),
            Some(d) => if d.executed {
                Err(ErrorCode::DistributionAlreadyExecuted)
            } else if d.cancelled {
                Err(ErrorCode::DistributionCancelled)
            } else if self.config.total_distributed + d.total_amount > u64::MAX {
                Err(ErrorCode::ArithmeticOverflow)
            } else {
                Ok(d.total_amount)
            },
        }
    }

    /// Executes the distribution under `distribution_id`, at most once. On
    /// success it returns exactly the batch's recorded total — the amount
    /// the host must move out of the vault — marks the batch executed, and
    /// adds the total to the running payout sum. On failure nothing changes
    /// and nothing is transferred.
    pub fn execute_prize_distribution(&mut self, distribution_id: u64) -> (r: Result<
        u64,
        ErrorCode,
    >)
        requires
            old(self).wf(),
        ensures
            r == old(self).execute_outcome(distribution_id),
            r is Ok ==> (old(self).distribution_of(distribution_id) matches Some(d) && final(self).distribution_of(distribution_id) == Some(
                PrizeDistribution { executed: true, ..d },
            ) && r == Ok::<u64, ErrorCode>(d.total_amount) && final(self).config == (PrizeConfig {
                total_distributed: (old(self).config.total_distributed + d.total_amount) as u64,
                ..old(self).config
            })),
            forall|id2: u64|
                id2 != distribution_id ==> #[trigger] final(self).distribution_of(id2) == old(self).distribution_of(id2),
            r is Err ==> *final(self) == *old(self),
            final(self).wf(),
    {
        if distribution_id == 0 || distribution_id > self.distributions.len() as u64 {
            return Err(ErrorCode::RecordNotFound);
        }
        let i = (distribution_id - 1) as usize;
        if self.distributions[i].executed {
            return Err(ErrorCode::DistributionAlreadyExecuted);
        }
        if self.distributions[i].cancelled {
            return Err(ErrorCode::DistributionCancelled);
        }
        let amount = self.distributions[i].total_amount;
        if self.config.total_distributed > u64::MAX - amount {
            return Err(ErrorCode::ArithmeticOverflow);
        }
        let ghost prior = *self;
        let d = &mut self.distributions[i];
        d.executed = true;
        self.config.total_distributed = self.config.total_distributed + amount;
        proof {
            assert(forall|id2: u64|
                id2 != distribution_id ==> #[trigger] self.distribution_of(id2)
                    == prior.distribution_of(id2));
        }
        Ok(amount)
    }

    /// What a cancellation attempt answers: only the administrator may
    /// cancel, the distribution must exist, and it must not already be
    /// terminal.
    pub open spec fn cancel_outcome(self, caller: AccountId, distribution_id: u64) -> Result<
        (),
        ErrorCode,
    > {
        if caller != self.config.admin {
            Err(ErrorCode::Unauthorized)
        } else {
            match self.distribution_of(distribution_id) {
                None => Err(ErrorCode::RecordNotFound),
                Some(d) => if d.executed {
                    Err(ErrorCode::DistributionAlreadyExecuted)
                } else if d.cancelled {
                    Err(ErrorCode::DistributionCancelled)
                } else {
                    Ok(())
                },
            }
        }
    }

    /// Cancels the distribution under `distribution_id`. Administrator
    /// only, and only before execution; the terminal mark is what a later
    /// execution attempt is refused on. On failure nothing changes.
    pub fn cancel_prize_distribution(&mut self, caller: AccountId, distribution_id: u64) -> (r:
        Result<(), ErrorCode>)
        requires
            old(self).wf(),
        ensures
            r == old(self).cancel_outcome(caller, distribution_id),
            r is Ok ==> (old(self).distribution_of(distribution_id) matches Some(d) && final(self).distribution_of(distribution_id) == Some(
                PrizeDistribution { cancelled: true, ..d },
            )),
            forall|id2: u64|
                id2 != distribution_id ==> #[trigger] final(self).distribution_of(id2) == old(self).distribution_of(id2),
            final(self).config == old(self).config,
            r is Err ==> *final(self) == *old(self),
            final(self).wf(),
    {
        if !(caller == self.config.admin) {
            return Err(ErrorCode::Unauthorized);
        }
        if distribution_id == 0 || distribution_id > self.distributions.len() as u64 {
            return Err(ErrorCode::RecordNotFound);
        }
        let i = (distribution_id - 1) as usize;
        if self.distributions[i].executed {
            return Err(ErrorCode::DistributionAlreadyExecuted);
        }
        if self.distributions[i].cancelled {
            return Err(ErrorCode::DistributionCancelled);
        }
        let ghost prior = *self;
        let d = &mut self.distributions[i];
        d.cancelled = true;
        proof {
            assert(forall|id2: u64|
                id2 != distribution_id ==> #[trigger] self.distribution_of(id2)
                    == prior.distribution_of(id2));
        }
        Ok(())
    }

    /// Starts the next season: the season counter advances and its start
    /// time becomes `now`; past distributions keep the season they were
    /// submitted in. Administrator only.
    pub fn start_new_season(&mut self, caller: AccountId, now: i64) -> (r: Result<(), ErrorCode>)
        requires
            old(self).wf(),
            valid_time(now),
        ensures
            r == (if caller != old(self).config.admin {
                Err::<(), ErrorCode>(ErrorCode::Unauthorized)
            } else if old(self).config.current_season == u32::MAX {
                Err::<(), ErrorCode>(ErrorCode::ArithmeticOverflow)
            } else {
                Ok::<(), ErrorCode>(())
            }),
            r is Ok ==> final(self).config == (PrizeConfig {
                current_season: (old(self).config.current_season + 1) as u32,
                season_start_time: now,
                ..old(self).config
            }),
            final(self).distributions@ == old(self).distributions@,
            forall|id2: u64|
                #[trigger] final(self).distribution_of(id2) == old(self).distribution_of(id2),
            r is Err ==> *final(self) == *old(self),
            final(self).wf(),
    {
        if !(caller == self.config.admin) {
            return Err(ErrorCode::Unauthorized);
        }
        if self.config.current_season == u32::MAX {
            return Err(ErrorCode::ArithmeticOverflow);
        }
        self.config.current_season = self.config.current_season + 1;
        self.config.season_start_time = now;
        Ok(())
    }
}

/// Every stored distribution's recorded total is exactly the sum of its
/// per-recipient amounts, and its recipient and amount lists are parallel,
/// so executing it pays out precisely what was submitted.
pub proof fn lemma_distribution_total_consistent(l: PrizeLedger, id: u64)
    requires
        l.wf(),
    ensures
        l.distribution_of(id) matches Some(d) ==> d.total_amount as int == sum_amounts(d.amounts@)
            && d.recipients@.len() == d.amounts@.len(),
{
    if 1 <= id <= l.distributions@.len() {
        assert(l.distributions@[id - 1].wf());
    }
}

/// Executing a distribution is not repeatable: once it is marked executed,
/// every further execution attempt reports it as already executed, so its
/// total is paid out and counted at most once.
pub proof fn lemma_distribution_execute_idempotent(l: PrizeLedger, id: u64)
    requires
        l.wf(),
        l.distribution_of(id) matches Some(d) && d.executed,
    ensures
        l.execute_outcome(id) == Err::<u64, ErrorCode>(ErrorCode::DistributionAlreadyExecuted),
{
}

/// A cancelled distribution can never be executed: the terminal mark set by
/// cancellation makes every later execution attempt report the
/// cancellation instead of paying out.
pub proof fn lemma_cancel_blocks_execute(l: PrizeLedger, id: u64)
    requires
        l.wf(),
        l.distribution_of(id) matches Some(d) && d.cancelled,
    ensures
        l.execute_outcome(id) == Err::<u64, ErrorCode>(ErrorCode::DistributionCancelled),
{
}

} // verus!
