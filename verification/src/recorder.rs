//! The books of the game and the operations that keep them: each either
//! takes effect in full or leaves everything as it was.

use vstd::prelude::*;
use vstd::string::*;
use crate::clock::{SECONDS_PER_DAY, midnight_after, next_midnight, valid_timestamp};
use crate::cooldown::{
    CooldownLedger, CooldownRecord, Eligibility, HATCH_DIE_SIDES, MAX_FAILED_HATCHES, OutcomeKind,
    RestrictionKind, record_of, records_wf, roll_fails, valid_roll,
};
use crate::dinos::{
    COLLECTION_LIMIT, DinoRecord, DinoRow, DinoTable, Herd, InsertError, entries_about_owned,
    first_of, owned_by, tuple_of,
};
use crate::generation::{every_draw_is_new, generate_dino};
use crate::parts::{DinoParts, Fragments};
use crate::random::random_between;
use crate::stats::{DuelStats, StatsTable, rows_wf, stats_of};
use crate::duel::{DuelReport, outcome_of, records_after_duel, report_of, rows_after_duel};
use crate::text::{decimal_nat, file_name_of, names_file, push_decimal_nat, push_text};

verus! {

/// What stands between a user and a hatch.
#[derive(Debug, Clone, Copy, PartialEq, Eq, Structural)]
pub enum HatchRuling {
    /// The last attempt is too recent.
    OnCooldown { retry_at: i64 },
    /// The egg did not hatch. `attempt` counts the failures in a row, this
    /// one included.
    Failed { attempt: i64, try_again_at: i64 },
    /// The egg hatches.
    Proceed,
}

/// How a request to hatch went, up to the point where the creature needs
/// its image.
#[derive(Debug)]
pub enum HatchStep {
    OnCooldown { retry_at: i64 },
    Failed { attempt: i64, try_again_at: i64 },
    /// No draw made a new creature. Nothing is recorded.
    Exhausted,
    /// The parts of the new creature, on their way to `insert_dino`.
    Ready(DinoParts),
}

/// What the record of a user, the instant and the roll of the die come
/// to: the cooldown first, then the roll against the failures so far.
pub open spec fn ruling_of(record: CooldownRecord, now: i64, roll: i64) -> HatchRuling {
    match record.eligibility(RestrictionKind::Hatch, now as int) {
        Eligibility::Blocked { retry_at } => HatchRuling::OnCooldown { retry_at },
        Eligibility::Allowed => if roll_fails(roll as int, record.consecutive_fails as int) {
            HatchRuling::Failed {
                attempt: (record.consecutive_fails + 1) as i64,
                try_again_at: midnight_after(now as int) as i64,
            }
        } else {
            HatchRuling::Proceed
        },
    }
}

/// The records after the ruling: a failure is noted, and in every case
/// the user has a record.
pub open spec fn records_after_ruling(
    records: Map<u64, CooldownRecord>,
    user: u64,
    now: i64,
    roll: i64,
) -> Map<u64, CooldownRecord> {
    let record = record_of(records, user);
    if ruling_of(record, now, roll) is Failed {
        records.insert(user, record.after(OutcomeKind::HatchFailed, now))
    } else {
        records.insert(user, record)
    }
}

/// Whether `step` and the records `after` are what the roll `roll` of the
/// die brings about for `user` at `now`, given the records `before`.
pub open spec fn step_follows_roll(
    before: Map<u64, CooldownRecord>,
    after: Map<u64, CooldownRecord>,
    user: u64,
    now: i64,
    roll: i64,
    step: HatchStep,
) -> bool {
    &&& valid_roll(roll as int)
    &&& after == records_after_ruling(before, user, now, roll)
    &&& match step {
        HatchStep::OnCooldown { retry_at } => ruling_of(record_of(before, user), now, roll) == (
        HatchRuling::OnCooldown { retry_at }),
        HatchStep::Failed { attempt, try_again_at } => ruling_of(record_of(before, user), now, roll)
            == (HatchRuling::Failed { attempt, try_again_at }),
        _ => ruling_of(record_of(before, user), now, roll) is Proceed,
    }
}

/// The ordinal that tells a failed attempt: `1st`, `2nd` or `3rd`.
pub open spec fn ordinal_of(attempt: int) -> Seq<char> {
    if attempt == 1 {
        "1st"@
    } else if attempt == 2 {
        "2nd"@
    } else {
        "3rd"@
    }
}

/// The ordinal that tells a failed attempt.
pub fn ordinal(attempt: i64) -> (text: &'static str)
    requires
        1 <= attempt <= MAX_FAILED_HATCHES,
    ensures
        text@ == ordinal_of(attempt as int),
{
    if attempt == 1 {
        "1st"
    } else if attempt == 2 {
        "2nd"
    } else {
        "3rd"
    }
}

/// Why a creature was not renamed.
#[derive(Debug, Clone, Copy, PartialEq, Eq, Structural)]
pub enum RenameError {
    /// No creature has the name.
    NotFound,
    /// The creature belongs to somebody else.
    NotOwner,
    /// Another creature has the new name.
    NameConflict,
}

/// Why a creature was not given away.
#[derive(Debug, Clone, Copy, PartialEq, Eq, Structural)]
pub enum GiftError {
    /// No creature has the name.
    NotFound,
    /// The creature belongs to somebody else.
    NotOwner,
}

/// The names of `rows`, separated by a comma and a space.
pub open spec fn names_of(rows: Seq<DinoRow>) -> Seq<char>
    decreases rows.len(),
{
    if rows.len() == 0 {
        Seq::empty()
    } else if rows.len() == 1 {
        rows[0].name
    } else {
        names_of(rows.drop_last()) + ", "@ + rows.last().name
    }
}

/// What a user is shown of their collection.
pub struct CollectionReport {
    /// The number of creatures that the user owns.
    pub dino_count: usize,
    /// The number of ledger entries about those creatures.
    pub transaction_count: usize,
    /// The creatures shown: the first ones, up to the limit.
    pub dinos: Vec<DinoRecord>,
    /// The names of the creatures shown, and how many more there are.
    pub description: String,
    /// The two totals in words.
    pub footer: String,
}

/// The line that names the creatures shown and counts the others.
pub open spec fn collection_description(shown: Seq<DinoRow>, dino_count: nat) -> Seq<char> {
    names_of(shown) + " and "@ + decimal_nat((dino_count - shown.len()) as nat) + " others!"@
}

/// The line that tells the two totals.
pub open spec fn collection_footer(dino_count: nat, transaction_count: nat) -> Seq<char> {
    decimal_nat(dino_count) + " Dinos. Together they are worth: "@ + decimal_nat(transaction_count)
        + " Bucks"@
}

/// The books: the cooldowns of the users, and the creatures with their
/// ledger.
pub struct Recorder {
    pub cooldowns: CooldownLedger,
    pub stats: StatsTable,
    pub dinos: DinoTable,
}

impl Recorder {
    /// Whether both books are sound.
    pub open spec fn wf(&self) -> bool {
        records_wf(self.cooldowns@) && rows_wf(self.stats@) && self.dinos@.wf()
    }

    /// Empty books.
    pub fn new() -> (recorder: Recorder)
        ensures
            recorder.wf(),
            recorder.cooldowns@ == Map::<u64, CooldownRecord>::empty(),
            recorder.stats@ == Map::<u64, DuelStats>::empty(),
            recorder.dinos@.dinos.len() == 0,
            recorder.dinos@.ledger.len() == 0,
    {
        Recorder {
            cooldowns: CooldownLedger::new(),
            stats: StatsTable::new(),
            dinos: DinoTable::new(),
        }
    }

    /// Rules on the hatch of `user` at `now` with the `roll` of the die: a
    /// user under cooldown is turned away, a roll within what is left of
    /// the allowance fails the hatch and is noted as a failure, any other
    /// roll lets the hatch proceed. The creatures are not touched.
    pub fn hatch_ruling(&mut self, user: u64, now: i64, roll: i64) -> (ruling: HatchRuling)
        requires
            old(self).wf(),
            valid_timestamp(now as int),
            valid_timestamp(now + SECONDS_PER_DAY),
            valid_roll(roll as int),
        ensures
            final(self).wf(),
            final(self).stats@ == old(self).stats@,
            ruling == ruling_of(record_of(old(self).cooldowns@, user), now, roll),
            final(self).cooldowns@ == records_after_ruling(old(self).cooldowns@, user, now, roll),
            final(self).dinos@ == old(self).dinos@,
            ruling matches HatchRuling::Failed { attempt, .. } ==> 1 <= attempt <= MAX_FAILED_HATCHES,
    {
        let record = self.cooldowns.get_user_record(user);
        match record.check_eligible(RestrictionKind::Hatch, now) {
            Eligibility::Blocked { retry_at } => HatchRuling::OnCooldown { retry_at },
            Eligibility::Allowed => {
                if record.hatch_fails(roll) {
                    self.cooldowns.record_outcome(user, OutcomeKind::HatchFailed, now);
                    assert(self.cooldowns@ =~= records_after_ruling(
                        old(self).cooldowns@,
                        user,
                        now,
                        roll,
                    ));
                    HatchRuling::Failed {
                        attempt: record.consecutive_fails + 1,
                        try_again_at: next_midnight(now),
                    }
                } else {
                    HatchRuling::Proceed
                }
            },
        }
    }

    /// Takes a request of `user` to hatch at `now`: rolls the die, rules on
    /// the hatch, and where it proceeds, draws the parts
    /// of a new creature from `fragments`. The roll and the draws are left
    /// to chance. A user under cooldown is turned away whatever the roll,
    /// and a user with the full run of failures behind them is not failed
    /// whatever the roll.
    pub fn hatch(&mut self, fragments: &Fragments, user: u64, now: i64) -> (step: HatchStep)
        requires
            old(self).wf(),
            fragments.wf(),
            valid_timestamp(now as int),
            valid_timestamp(now + SECONDS_PER_DAY),
        ensures
            final(self).wf(),
            final(self).stats@ == old(self).stats@,
            final(self).dinos@ == old(self).dinos@,
            exists|roll: i64| #[trigger]
                step_follows_roll(
                    old(self).cooldowns@,
                    final(self).cooldowns@,
                    user,
                    now,
                    roll,
                    step,
                ),
            record_of(old(self).cooldowns@, user).eligibility(RestrictionKind::Hatch, now as int)
                matches Eligibility::Blocked { retry_at } ==> step matches HatchStep::OnCooldown {
                retry_at: at,
            } && at == retry_at,
            record_of(old(self).cooldowns@, user).eligibility(RestrictionKind::Hatch, now as int)
                is Allowed ==> !(step is OnCooldown),
            record_of(old(self).cooldowns@, user).consecutive_fails >= MAX_FAILED_HATCHES ==> !(step
                is Failed),
            step matches HatchStep::Ready(parts) ==> fragments.offers(parts) && parts.named()
                && !old(self).dinos@.has_tuple(tuple_of(parts)),
            every_draw_is_new(*fragments, old(self).dinos@) ==> !(step is Exhausted),
    {
        let roll: i64 = random_between(1, HATCH_DIE_SIDES as u64) as i64;
        let step = match self.hatch_ruling(user, now, roll) {
            HatchRuling::OnCooldown { retry_at } => HatchStep::OnCooldown { retry_at },
            HatchRuling::Failed { attempt, try_again_at } => HatchStep::Failed {
                attempt,
                try_again_at,
            },
            HatchRuling::Proceed => match generate_dino(&self.dinos, fragments) {
                Ok(parts) => HatchStep::Ready(parts),
                Err(_) => HatchStep::Exhausted,
            },
        };
        assert(step_follows_roll(old(self).cooldowns@, self.cooldowns@, user, now, roll, step));
        step
    }

    /// Records a generation: enters the creature made of `parts` for
    /// `owner`, with its image at `file_path`, all together: the row, the
    /// ledger entry of the hatch, and the owner's cooldown, which starts at
    /// `now` with the failures forgotten. Refused where the parts or the
    /// name are taken, and then nothing changes.
    pub fn insert_dino(
        &mut self,
        owner: u64,
        parts: &DinoParts,
        file_path: &str,
        now: i64,
    ) -> (result: Result<i64, InsertError>)
        requires
            old(self).wf(),
            old(self).dinos@.has_room(),
            valid_timestamp(now as int),
            parts.has_paths(),
            names_file(file_path@),
        ensures
            final(self).wf(),
            final(self).stats@ == old(self).stats@,
            match result {
                Ok(id) => {
                    &&& !old(self).dinos@.has_tuple(tuple_of(*parts))
                    &&& !old(self).dinos@.has_name(parts.name@)
                    &&& id == old(self).dinos@.dinos.len() + 1
                    &&& final(self).dinos@ == old(self).dinos@.after_insert(
                        owner,
                        parts.name@,
                        file_name_of(file_path@),
                        tuple_of(*parts),
                        now,
                    )
                    &&& final(self).cooldowns@ == old(self).cooldowns@.insert(
                        owner,
                        record_of(old(self).cooldowns@, owner).after(
                            OutcomeKind::HatchSucceeded,
                            now,
                        ),
                    )
                },
                Err(error) => {
                    &&& error == if old(self).dinos@.has_tuple(tuple_of(*parts)) {
                        InsertError::DuplicateParts
                    } else {
                        InsertError::NameConflict
                    }
                    &&& old(self).dinos@.has_tuple(tuple_of(*parts)) || old(self).dinos@.has_name(
                        parts.name@,
                    )
                    &&& final(self).dinos@ == old(self).dinos@
                    &&& final(self).cooldowns@ == old(self).cooldowns@
                },
            },
    {
        match self.dinos.enter(owner, parts, file_path, now) {
            Ok(id) => {
                self.cooldowns.record_outcome(owner, OutcomeKind::HatchSucceeded, now);
                Ok(id)
            },
            Err(error) => Err(error),
        }
    }

    /// Gives the creature called `name` the name `replacement`, at the
    /// request of `requester`. Refused where there is no such creature,
    /// where it is not the requester's, or where another creature has the
    /// new name; then nothing changes. Otherwise the one row changes its
    /// name and nothing else does.
    pub fn rename(&mut self, requester: u64, name: &str, replacement: &str) -> (result: Result<
        (),
        RenameError,
    >)
        requires
            old(self).wf(),
        ensures
            final(self).wf(),
            final(self).stats@ == old(self).stats@,
            final(self).cooldowns@ == old(self).cooldowns@,
            result == rename_result(old(self).dinos@, requester, name@, replacement@),
            final(self).dinos@ == if result is Ok {
                old(self).dinos@.after_rename(
                    old(self).dinos@.position_of(name@) + 1,
                    replacement@,
                )
            } else {
                old(self).dinos@
            },
    {
        let Some(dino) = self.dinos.get_dino_record(name) else {
            return Err(RenameError::NotFound);
        };
        if dino.owner_id != requester {
            return Err(RenameError::NotOwner);
        }
        match self.dinos.update_dino_name(dino.id, replacement) {
            Ok(()) => Ok(()),
            Err(_) => Err(RenameError::NameConflict),
        }
    }

    /// Looks the creature called `name` up.
    pub fn view(&self, name: &str) -> (record: Option<DinoRecord>)
        requires
            self.wf(),
        ensures
            match record {
                Some(r) => self.dinos@.has_name(name@) && r@ == self.dinos@.dinos[
                    self.dinos@.position_of(name@)],
                None => !self.dinos@.has_name(name@),
            },
    {
        self.dinos.get_dino_record(name)
    }

    /// Hands the creature numbered `dino_id` from `gifter_id` over to
    /// `recipient_id`, all together: the row changes its owner, the ledger
    /// gains the entry of the gift, and the recipient has a cooldown
    /// record from now on. Returns whether there is such a creature; an
    /// unknown number changes nothing.
    pub fn gift_dino(&mut self, dino_id: i64, gifter_id: u64, recipient_id: u64, now: i64) -> (given:
        bool)
        requires
            old(self).wf(),
        ensures
            final(self).wf(),
            final(self).stats@ == old(self).stats@,
            given == old(self).dinos@.has_id(dino_id as int),
            final(self).dinos@ == if given {
                old(self).dinos@.after_gift(dino_id as int, gifter_id, recipient_id, now)
            } else {
                old(self).dinos@
            },
            final(self).cooldowns@ == if given {
                old(self).cooldowns@.insert(
                    recipient_id,
                    record_of(old(self).cooldowns@, recipient_id),
                )
            } else {
                old(self).cooldowns@
            },
    {
        if self.dinos.hand_over(dino_id, gifter_id, recipient_id, now) {
            let _ = self.cooldowns.get_user_record(recipient_id);
            true
        } else {
            false
        }
    }

    /// Hands the creature called `dino` from `requester` over to
    /// `recipient`. Refused where there is no such creature or where it is
    /// not the requester's; then nothing changes. Otherwise the one row
    /// changes its owner, the ledger gains the entry of the gift, and the
    /// recipient has a cooldown record from now on.
    pub fn gift(&mut self, requester: u64, dino: &str, recipient: u64, now: i64) -> (result: Result<
        (),
        GiftError,
    >)
        requires
            old(self).wf(),
        ensures
            final(self).wf(),
            final(self).stats@ == old(self).stats@,
            result == gift_result(old(self).dinos@, requester, dino@),
            final(self).dinos@ == if result is Ok {
                old(self).dinos@.after_gift(
                    old(self).dinos@.position_of(dino@) + 1,
                    requester,
                    recipient,
                    now,
                )
            } else {
                old(self).dinos@
            },
            final(self).cooldowns@ == if result is Ok {
                old(self).cooldowns@.insert(recipient, record_of(old(self).cooldowns@, recipient))
            } else {
                old(self).cooldowns@
            },
    {
        let Some(record) = self.dinos.get_dino_record(dino) else {
            return Err(GiftError::NotFound);
        };
        if record.owner_id != requester {
            return Err(GiftError::NotOwner);
        }
        let given = self.gift_dino(record.id, requester, recipient, now);
        assert(given);
        Ok(())
    }

    /// Records a duel between `challenger` and `accepter` that the scores
    /// decide: the statistics of both and the cooldown of the loser, all
    /// together. The creatures are not touched.
    pub fn record_duel_outcome(
        &mut self,
        challenger: u64,
        accepter: u64,
        challenger_score: usize,
        accepter_score: usize,
        now: i64,
    ) -> (report: DuelReport)
        requires
            old(self).wf(),
            challenger != accepter,
            stats_of(old(self).stats@, challenger).has_room(),
            stats_of(old(self).stats@, accepter).has_room(),
            valid_timestamp(now as int),
        ensures
            final(self).wf(),
            final(self).dinos@ == old(self).dinos@,
            report == report_of(
                challenger,
                accepter,
                outcome_of(challenger_score as int, accepter_score as int),
                now,
            ),
            final(self).stats@ == rows_after_duel(
                old(self).stats@,
                challenger,
                accepter,
                outcome_of(challenger_score as int, accepter_score as int),
            ),
            final(self).cooldowns@ == records_after_duel(
                old(self).cooldowns@,
                challenger,
                accepter,
                outcome_of(challenger_score as int, accepter_score as int),
                now,
            ),
    {
        crate::duel::record_duel_outcome(
            &mut self.stats,
            &mut self.cooldowns,
            challenger,
            accepter,
            challenger_score,
            accepter_score,
            now,
        )
    }

    /// What `user` owns, for showing: `None` where they own nothing. The
    /// user has a cooldown record from now on.
    pub fn collection(&mut self, user: u64) -> (report: Option<CollectionReport>)
        requires
            old(self).wf(),
        ensures
            final(self).wf(),
            final(self).stats@ == old(self).stats@,
            final(self).dinos@ == old(self).dinos@,
            final(self).cooldowns@ == old(self).cooldowns@.insert(
                user,
                record_of(old(self).cooldowns@, user),
            ),
            report is Some <==> owned_by(old(self).dinos@.dinos, user).len() > 0,
            report matches Some(r) ==> {
                let owned = owned_by(old(self).dinos@.dinos, user);
                let shown = first_of(owned, COLLECTION_LIMIT as int);
                &&& r.dino_count == owned.len()
                &&& r.transaction_count == entries_about_owned(
                    old(self).dinos@.ledger,
                    old(self).dinos@.dinos,
                    user,
                )
                &&& r.dinos.deep_view() == shown
                &&& r.description@ == collection_description(shown, owned.len())
                &&& r.footer@ == collection_footer(owned.len(), r.transaction_count as nat)
            },
    {
        let _ = self.cooldowns.get_user_record(user);
        let found = self.dinos.fetch_collection(user);
        assert(found.dinos.deep_view().len() == found.dinos.len());
        if found.dinos.len() == 0 {
            return None;
        }
        let mut description = join_names(&found.dinos);
        push_text(&mut description, " and ");
        push_decimal_nat(&mut description, (found.dino_count - found.dinos.len()) as u64);
        push_text(&mut description, " others!");
        let mut footer = String::new();
        push_decimal_nat(&mut footer, found.dino_count as u64);
        push_text(&mut footer, " Dinos. Together they are worth: ");
        push_decimal_nat(&mut footer, found.transaction_count as u64);
        push_text(&mut footer, " Bucks");
        assert(footer@ =~= collection_footer(
            found.dino_count as nat,
            found.transaction_count as nat,
        ));
        Some(
            CollectionReport {
                dino_count: found.dino_count,
                transaction_count: found.transaction_count,
                dinos: found.dinos,
                description,
                footer,
            },
        )
    }
}

/// The answer to a request to rename: the creature must exist, be the
/// requester's, and the new name must not be that of another creature.
pub open spec fn rename_result(
    herd: Herd,
    requester: u64,
    name: Seq<char>,
    replacement: Seq<char>,
) -> Result<(), RenameError> {
    if !herd.has_name(name) {
        Err(RenameError::NotFound)
    } else if herd.dinos[herd.position_of(name)].owner_id != requester {
        Err(RenameError::NotOwner)
    } else if herd.name_taken_by_other(replacement, herd.position_of(name)) {
        Err(RenameError::NameConflict)
    } else {
        Ok(())
    }
}

/// The answer to a request to give: the creature must exist and be the
/// requester's.
pub open spec fn gift_result(herd: Herd, requester: u64, name: Seq<char>) -> Result<
    (),
    GiftError,
> {
    if !herd.has_name(name) {
        Err(GiftError::NotFound)
    } else if herd.dinos[herd.position_of(name)].owner_id != requester {
        Err(GiftError::NotOwner)
    } else {
        Ok(())
    }
}

/// The names of `dinos`, separated by a comma and a space.
pub fn join_names(dinos: &Vec<DinoRecord>) -> (names: String)
    ensures
        names@ == names_of(dinos.deep_view()),
{
    let ghost rows = dinos.deep_view();
    let mut names = String::new();
    let mut i: usize = 0;
    assert(rows.take(0) =~= Seq::<DinoRow>::empty());
    while i < dinos.len()
        invariant
            i <= dinos.len(),
            rows == dinos.deep_view(),
            names@ == names_of(rows.take(i as int)),
        decreases dinos.len() - i,
    {
        let ghost upto = rows.take(i + 1);
        assert(upto.drop_last() =~= rows.take(i as int));
        assert(upto.last() == rows[i as int]);
        assert(rows[i as int].name == dinos[i as int].name@);
        if i > 0 {
            push_text(&mut names, ", ");
        } else {
            assert(upto[0] == rows[0]);
            assert(names@ + rows[0].name =~= rows[0].name);
        }
        push_text(&mut names, dinos[i].name.as_str());
        i += 1;
    }
    assert(rows.take(i as int) =~= rows);
    names
}

} // verus!
