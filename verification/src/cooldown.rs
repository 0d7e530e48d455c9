//! Per-user restrictions in time: the wait after a hatch, the wait after a
//! lost duel, and the run of failed hatches that makes the next one easier.

use std::collections::HashMap;
use vstd::prelude::*;
use crate::clock::{MAX_TIMESTAMP, MIN_TIMESTAMP, valid_timestamp};

verus! {

/// Seconds that must pass after a hatch attempt before the next one.
pub const HATCH_COOLDOWN: i64 = 10;

/// Seconds that must pass after a lost duel before the next duel.
pub const LOSS_COOLDOWN: i64 = 60 * 60;

/// Seconds for which both participants of a drawn duel are silenced.
pub const DRAW_TIMEOUT: i64 = 10 * 60;

/// The run of failed hatches after which a hatch can no longer fail.
pub const MAX_FAILED_HATCHES: i64 = 3;

/// The number of faces of the die that is rolled for a hatch.
pub const HATCH_DIE_SIDES: i64 = 4;

/// The action that a restriction stands in the way of.
#[derive(Debug, Clone, Copy, PartialEq, Eq, Structural)]
pub enum RestrictionKind {
    Hatch,
    Loss,
}

/// What happened to a user that the record keeps track of.
#[derive(Debug, Clone, Copy, PartialEq, Eq, Structural)]
pub enum OutcomeKind {
    HatchSucceeded,
    HatchFailed,
    DuelLost,
}

/// Whether a user may act now, and if not, from when on.
#[derive(Debug, Clone, Copy, PartialEq, Eq, Structural)]
pub enum Eligibility {
    Allowed,
    Blocked { retry_at: i64 },
}

/// The restrictions of one user.
#[derive(Debug, Clone, Copy, PartialEq, Eq, Structural)]
pub struct CooldownRecord {
    pub last_loss: i64,
    pub last_hatch: i64,
    pub consecutive_fails: i64,
}

/// The wait that a restriction imposes, in seconds.
pub open spec fn cooldown_of(kind: RestrictionKind) -> int {
    match kind {
        RestrictionKind::Hatch => HATCH_COOLDOWN as int,
        RestrictionKind::Loss => LOSS_COOLDOWN as int,
    }
}

/// Whether a roll of the hatch die is one of its faces.
pub open spec fn valid_roll(roll: int) -> bool {
    1 <= roll <= HATCH_DIE_SIDES
}

/// Whether a hatch fails on `roll` after `fails` failures in a row: the roll
/// must exceed what is left of the allowance.
pub open spec fn roll_fails(roll: int, fails: int) -> bool {
    roll <= MAX_FAILED_HATCHES - fails
}

impl CooldownRecord {
    /// The bounds that every record keeps.
    pub open spec fn wf(self) -> bool {
        &&& valid_timestamp(self.last_loss as int)
        &&& valid_timestamp(self.last_hatch as int)
        &&& 0 <= self.consecutive_fails <= MAX_FAILED_HATCHES
    }

    /// The instant that the restriction counts from.
    pub open spec fn since(self, kind: RestrictionKind) -> int {
        match kind {
            RestrictionKind::Hatch => self.last_hatch as int,
            RestrictionKind::Loss => self.last_loss as int,
        }
    }

    /// The first instant at which the restriction no longer holds.
    pub open spec fn expiry(self, kind: RestrictionKind) -> int {
        self.since(kind) + cooldown_of(kind)
    }

    /// The user is blocked strictly before the expiry and allowed from it on.
    pub open spec fn eligibility(self, kind: RestrictionKind, now: int) -> Eligibility {
        if now < self.expiry(kind) {
            Eligibility::Blocked { retry_at: self.expiry(kind) as i64 }
        } else {
            Eligibility::Allowed
        }
    }

    /// The record after `outcome` at the instant `now`.
    pub open spec fn after(self, outcome: OutcomeKind, now: i64) -> CooldownRecord {
        match outcome {
            OutcomeKind::HatchSucceeded => CooldownRecord {
                last_hatch: now,
                consecutive_fails: 0,
                ..self
            },
            OutcomeKind::HatchFailed => CooldownRecord {
                last_hatch: now,
                consecutive_fails: if self.consecutive_fails < MAX_FAILED_HATCHES {
                    (self.consecutive_fails + 1) as i64
                } else {
                    MAX_FAILED_HATCHES
                },
                ..self
            },
            OutcomeKind::DuelLost => CooldownRecord { last_loss: now, ..self },
        }
    }

    /// The record of a user who has not acted yet: nothing restricts them.
    pub fn new() -> (record: CooldownRecord)
        ensures
            record == (CooldownRecord { last_loss: 0, last_hatch: 0, consecutive_fails: 0 }),
            record.wf(),
    {
        CooldownRecord { last_loss: 0, last_hatch: 0, consecutive_fails: 0 }
    }

    /// Whether the record keeps its bounds.
    pub fn is_valid(&self) -> (valid: bool)
        ensures
            valid == self.wf(),
    {
        MIN_TIMESTAMP <= self.last_loss && self.last_loss <= MAX_TIMESTAMP && MIN_TIMESTAMP
            <= self.last_hatch && self.last_hatch <= MAX_TIMESTAMP && 0 <= self.consecutive_fails
            && self.consecutive_fails <= MAX_FAILED_HATCHES
    }

    /// Tells whether the user may act at `now`, and otherwise when.
    pub fn check_eligible(&self, kind: RestrictionKind, now: i64) -> (result: Eligibility)
        requires
            self.wf(),
        ensures
            result == self.eligibility(kind, now as int),
            result is Allowed <==> now >= self.expiry(kind),
    {
        let expiry: i64 = match kind {
            RestrictionKind::Hatch => self.last_hatch + HATCH_COOLDOWN,
            RestrictionKind::Loss => self.last_loss + LOSS_COOLDOWN,
        };
        if expiry > now {
            Eligibility::Blocked { retry_at: expiry }
        } else {
            Eligibility::Allowed
        }
    }

    /// Notes `outcome`, which happened at `now`.
    pub fn record_outcome(&mut self, outcome: OutcomeKind, now: i64)
        requires
            old(self).wf(),
            valid_timestamp(now as int),
        ensures
            *final(self) == old(self).after(outcome, now),
            final(self).wf(),
    {
        match outcome {
            OutcomeKind::HatchSucceeded => {
                self.last_hatch = now;
                self.consecutive_fails = 0;
            },
            OutcomeKind::HatchFailed => {
                self.last_hatch = now;
                if self.consecutive_fails < MAX_FAILED_HATCHES {
                    self.consecutive_fails = self.consecutive_fails + 1;
                }
            },
            OutcomeKind::DuelLost => {
                self.last_loss = now;
            },
        }
    }

    /// Whether a hatch fails on `roll`, given the failures so far.
    pub fn hatch_fails(&self, roll: i64) -> (fails: bool)
        requires
            self.wf(),
        ensures
            fails == roll_fails(roll as int, self.consecutive_fails as int),
    {
        roll <= MAX_FAILED_HATCHES - self.consecutive_fails
    }
}

/// A hatch cannot fail once the run of failures has reached its maximum,
/// whatever face the die shows.
pub proof fn lemma_pity_forces_success(roll: int, fails: int)
    requires
        valid_roll(roll),
        fails >= MAX_FAILED_HATCHES,
    ensures
        !roll_fails(roll, fails),
{
}

/// After three failed hatches in a row, starting from none, the failure
/// count stands at its maximum and the next hatch succeeds on every face of
/// the die.
pub proof fn lemma_three_failures_then_success(
    start: CooldownRecord,
    t1: i64,
    t2: i64,
    t3: i64,
    roll: int,
)
    requires
        start.wf(),
        start.consecutive_fails == 0,
        valid_roll(roll),
    ensures
        ({
            let r = start.after(OutcomeKind::HatchFailed, t1).after(
                OutcomeKind::HatchFailed,
                t2,
            ).after(OutcomeKind::HatchFailed, t3);
            r.consecutive_fails == MAX_FAILED_HATCHES && !roll_fails(
                roll,
                r.consecutive_fails as int,
            )
        }),
{
}

/// A longer run of failures never makes a roll fail that a shorter run lets
/// pass, and the lowest face can still fail one short of the maximum.
pub proof fn lemma_pity_monotone(roll: int, fewer: int, more: int)
    requires
        fewer <= more,
    ensures
        roll_fails(roll, more) ==> roll_fails(roll, fewer),
        roll_fails(1, MAX_FAILED_HATCHES - 1),
{
}

/// A success resets the run of failures, and nothing else does.
pub proof fn lemma_fails_reset_only_by_success(record: CooldownRecord, outcome: OutcomeKind, now: i64)
    requires
        record.wf(),
    ensures
        outcome == OutcomeKind::HatchSucceeded ==> record.after(outcome, now).consecutive_fails
            == 0,
        outcome != OutcomeKind::HatchSucceeded ==> record.after(outcome, now).consecutive_fails
            >= record.consecutive_fails,
        record.after(outcome, now).consecutive_fails <= MAX_FAILED_HATCHES,
{
}

/// A second action strictly before the cooldown has run out is blocked, with
/// the instant at which it runs out; at that instant and later it is allowed.
pub proof fn lemma_cooldown_boundary(
    record: CooldownRecord,
    outcome: OutcomeKind,
    kind: RestrictionKind,
    acted_at: i64,
    now: i64,
)
    requires
        record.wf(),
        valid_timestamp(acted_at as int),
        (kind == RestrictionKind::Hatch && outcome != OutcomeKind::DuelLost) || (kind
            == RestrictionKind::Loss && outcome == OutcomeKind::DuelLost),
    ensures
        now < acted_at + cooldown_of(kind) ==> record.after(outcome, acted_at).eligibility(
            kind,
            now as int,
        ) == (Eligibility::Blocked { retry_at: (acted_at + cooldown_of(kind)) as i64 }),
        now >= acted_at + cooldown_of(kind) ==> record.after(outcome, acted_at).eligibility(
            kind,
            now as int,
        ) == Eligibility::Allowed,
{
}

/// The record that `records` hold of `user`: that of a newcomer where they
/// hold none.
pub open spec fn record_of(records: Map<u64, CooldownRecord>, user: u64) -> CooldownRecord {
    if records.contains_key(user) {
        records[user]
    } else {
        CooldownRecord { last_loss: 0, last_hatch: 0, consecutive_fails: 0 }
    }
}

/// Whether every record in `records` keeps its bounds.
pub open spec fn records_wf(records: Map<u64, CooldownRecord>) -> bool {
    forall|user: u64| records.contains_key(user) ==> (#[trigger] records[user]).wf()
}

/// The restrictions of all users, each entered at their first action.
pub struct CooldownLedger {
    records: HashMap<u64, CooldownRecord>,
}

impl View for CooldownLedger {
    type V = Map<u64, CooldownRecord>;

    closed spec fn view(&self) -> Map<u64, CooldownRecord> {
        self.records@
    }
}

impl CooldownLedger {
    /// A ledger without records.
    pub fn new() -> (ledger: CooldownLedger)
        ensures
            ledger@ == Map::<u64, CooldownRecord>::empty(),
            records_wf(ledger@),
    {
        CooldownLedger { records: HashMap::new() }
    }

    /// The record of `user`, if they have one.
    pub fn peek(&self, user: u64) -> (record: Option<CooldownRecord>)
        ensures
            record == if self@.contains_key(user) {
                Some(self@[user])
            } else {
                None
            },
    {
        broadcast use vstd::std_specs::hash::group_hash_axioms;

        match self.records.get(&user) {
            Some(record) => Some(*record),
            None => None,
        }
    }

    /// Puts a record back that was kept elsewhere. A record out of bounds is
    /// refused. Returns whether the record was taken.
    pub fn restore(&mut self, user: u64, record: CooldownRecord) -> (taken: bool)
        requires
            records_wf(old(self)@),
        ensures
            taken == record.wf(),
            final(self)@ == if taken {
                old(self)@.insert(user, record)
            } else {
                old(self)@
            },
            records_wf(final(self)@),
    {
        broadcast use vstd::std_specs::hash::group_hash_axioms;

        if record.is_valid() {
            self.records.insert(user, record);
            true
        } else {
            false
        }
    }

    /// The record of `user`, entered now if they had none.
    pub fn get_user_record(&mut self, user: u64) -> (record: CooldownRecord)
        requires
            records_wf(old(self)@),
        ensures
            record == record_of(old(self)@, user),
            final(self)@ == old(self)@.insert(user, record),
            records_wf(final(self)@),
            record.wf(),
    {
        broadcast use vstd::std_specs::hash::group_hash_axioms;

        let record = match self.records.get(&user) {
            Some(record) => *record,
            None => CooldownRecord::new(),
        };
        self.records.insert(user, record);
        record
    }

    /// Tells whether `user` may act at `now`, and otherwise when. The user
    /// is entered if they had no record.
    pub fn check_eligible(&mut self, user: u64, kind: RestrictionKind, now: i64) -> (result:
        Eligibility)
        requires
            records_wf(old(self)@),
        ensures
            result == record_of(old(self)@, user).eligibility(kind, now as int),
            final(self)@ == old(self)@.insert(user, record_of(old(self)@, user)),
            records_wf(final(self)@),
    {
        let record = self.get_user_record(user);
        record.check_eligible(kind, now)
    }

    /// Notes `outcome` for `user`, which happened at `now`.
    pub fn record_outcome(&mut self, user: u64, outcome: OutcomeKind, now: i64)
        requires
            records_wf(old(self)@),
            valid_timestamp(now as int),
        ensures
            final(self)@ == old(self)@.insert(user, record_of(old(self)@, user).after(outcome, now)),
            records_wf(final(self)@),
    {
        broadcast use vstd::std_specs::hash::group_hash_axioms;

        let mut record = self.get_user_record(user);
        record.record_outcome(outcome, now);
        self.records.insert(user, record);
        assert(self@ =~= old(self)@.insert(user, record_of(old(self)@, user).after(outcome, now)));
    }
}

} // verus!
