//! The duel: a challenge to the whole chat, accepted by the first eligible
//! taker, decided by two scores drawn at random.

use vstd::prelude::*;
use vstd::string::*;
use crate::challenge::{
    AcceptDecision, Challenge, Coordinator, GameType, OpenError, Outcome, SessionHandle,
    accept_button_id,
};
use crate::cooldown::{
    CooldownLedger, CooldownRecord, DRAW_TIMEOUT, Eligibility, OutcomeKind, RestrictionKind,
    record_of, records_wf,
};
use crate::clock::valid_timestamp;
use crate::random::random_between;
use crate::stats::{
    DuelStats, StatsTable, rows_after_draw, rows_after_win_loss, rows_wf, stats_of,
};
use crate::text::{decimal, push_decimal, push_text};

verus! {

/// The highest score that a duelist can draw.
pub const MAX_SCORE: usize = 100;

/// How a duel ended.
#[derive(Debug, Clone, Copy, PartialEq, Eq, Structural)]
pub enum DuelOutcome {
    ChallengerWins,
    AccepterWins,
    Draw,
}

/// The higher score wins, equal scores draw.
pub open spec fn outcome_of(challenger_score: int, accepter_score: int) -> DuelOutcome {
    if challenger_score > accepter_score {
        DuelOutcome::ChallengerWins
    } else if challenger_score < accepter_score {
        DuelOutcome::AccepterWins
    } else {
        DuelOutcome::Draw
    }
}

/// The statistics after a duel between `challenger` and `accepter` that
/// ended with `outcome`.
pub open spec fn rows_after_duel(
    rows: Map<u64, DuelStats>,
    challenger: u64,
    accepter: u64,
    outcome: DuelOutcome,
) -> Map<u64, DuelStats> {
    match outcome {
        DuelOutcome::ChallengerWins => rows_after_win_loss(rows, challenger, accepter),
        DuelOutcome::AccepterWins => rows_after_win_loss(rows, accepter, challenger),
        DuelOutcome::Draw => rows_after_draw(rows, challenger, accepter),
    }
}

/// The cooldown records after `loser` lost a duel at `now`: their cooldown
/// starts, no other record changes.
pub open spec fn records_after_loss(records: Map<u64, CooldownRecord>, loser: u64, now: i64) -> Map<
    u64,
    CooldownRecord,
> {
    records.insert(loser, record_of(records, loser).after(OutcomeKind::DuelLost, now))
}

/// The cooldown records after such a duel, which ended at `now`: the loser
/// starts their cooldown, a draw starts none.
pub open spec fn records_after_duel(
    records: Map<u64, CooldownRecord>,
    challenger: u64,
    accepter: u64,
    outcome: DuelOutcome,
    now: i64,
) -> Map<u64, CooldownRecord> {
    match outcome {
        DuelOutcome::ChallengerWins => records_after_loss(records, accepter, now),
        DuelOutcome::AccepterWins => records_after_loss(records, challenger, now),
        DuelOutcome::Draw => records,
    }
}

/// What is to be announced and done after a duel.
#[derive(Debug, Clone, Copy, PartialEq, Eq)]
pub struct DuelReport {
    pub outcome: DuelOutcome,
    pub winner: Option<u64>,
    pub loser: Option<u64>,
    /// After a draw, the instant until which both duelists are silenced.
    pub silenced_until: Option<i64>,
}

/// The report of a duel that ended with `outcome` at `now`.
pub open spec fn report_of(challenger: u64, accepter: u64, outcome: DuelOutcome, now: i64)
    -> DuelReport {
    match outcome {
        DuelOutcome::ChallengerWins => DuelReport {
            outcome,
            winner: Some(challenger),
            loser: Some(accepter),
            silenced_until: None,
        },
        DuelOutcome::AccepterWins => DuelReport {
            outcome,
            winner: Some(accepter),
            loser: Some(challenger),
            silenced_until: None,
        },
        DuelOutcome::Draw => DuelReport {
            outcome,
            winner: None,
            loser: None,
            silenced_until: Some((now + DRAW_TIMEOUT) as i64),
        },
    }
}

/// How the wait for an opponent ended.
#[derive(Debug, Clone, Copy, PartialEq, Eq)]
pub enum DuelEnd {
    /// Nobody eligible accepted: nothing is recorded.
    OpponentNotFound,
    /// The duel was fought and recorded.
    Decided(DuelReport),
}

/// Draws the scores of the challenger and of the accepter.
pub fn pick_scores() -> (scores: (usize, usize))
    ensures
        scores.0 <= MAX_SCORE,
        scores.1 <= MAX_SCORE,
{
    let challenger = random_between(0, MAX_SCORE as u64);
    let accepter = random_between(0, MAX_SCORE as u64);
    (challenger as usize, accepter as usize)
}

/// Decides the duel by the two scores.
pub fn decide(challenger_score: usize, accepter_score: usize) -> (outcome: DuelOutcome)
    ensures
        outcome == outcome_of(challenger_score as int, accepter_score as int),
{
    if challenger_score > accepter_score {
        DuelOutcome::ChallengerWins
    } else if challenger_score < accepter_score {
        DuelOutcome::AccepterWins
    } else {
        DuelOutcome::Draw
    }
}

/// Opens a duel for `challenger`. Rejected while a duel is open, and
/// otherwise while the challenger waits out a lost duel; only in the
/// second case, and on success, is the challenger entered in the ledger.
pub fn duel(
    coordinator: &mut Coordinator,
    cooldowns: &mut CooldownLedger,
    challenger: u64,
    now: i64,
) -> (result: Result<SessionHandle, OpenError>)
    requires
        old(coordinator)@.wf(),
        old(coordinator).has_room(),
        records_wf(old(cooldowns)@),
    ensures
        final(coordinator)@.wf(),
        records_wf(final(cooldowns)@),
        result == old(coordinator)@.open_result(
            GameType::Duel,
            challenger,
            record_of(old(cooldowns)@, challenger).eligibility(RestrictionKind::Loss, now as int),
        ),
        final(coordinator)@ == old(coordinator)@.after_open(
            GameType::Duel,
            challenger,
            record_of(old(cooldowns)@, challenger).eligibility(RestrictionKind::Loss, now as int),
            now,
        ),
        final(cooldowns)@ == if old(coordinator)@.in_progress(GameType::Duel) {
            old(cooldowns)@
        } else {
            old(cooldowns)@.insert(challenger, record_of(old(cooldowns)@, challenger))
        },
        result matches Ok(handle) ==> final(coordinator)@.awaiting(handle),
{
    if coordinator.in_progress(GameType::Duel) {
        return Err(OpenError::AlreadyInProgress);
    }
    let eligibility = cooldowns.check_eligible(challenger, RestrictionKind::Loss, now);
    coordinator.open(GameType::Duel, challenger, eligibility, now)
}

/// Weighs one press of a button on the invitation of `handle`: the press
/// of `user` on the button `custom_id` at `now`. A press at the deadline
/// of the invitation or later is too late, whatever was pressed before
/// it. The cooldown of the user is looked up, and the user entered in the
/// ledger, only where the press is one of the accept button, by another
/// than the challenger, on an invitation still open and in time.
pub fn find_opponent(
    coordinator: &mut Coordinator,
    cooldowns: &mut CooldownLedger,
    handle: &SessionHandle,
    user: u64,
    custom_id: &str,
    now: i64,
) -> (decision: AcceptDecision)
    requires
        old(coordinator)@.wf(),
        records_wf(old(cooldowns)@),
    ensures
        final(coordinator)@.wf(),
        final(coordinator).has_room() == old(coordinator).has_room(),
        records_wf(final(cooldowns)@),
        decision == old(coordinator)@.accept_decision(
            *handle,
            user,
            custom_id@ == accept_button_id(handle.game),
            record_of(old(cooldowns)@, user).eligibility(RestrictionKind::Loss, now as int),
            now,
        ),
        final(coordinator)@ == old(coordinator)@.after_offer(
            *handle,
            user,
            custom_id@ == accept_button_id(handle.game),
            record_of(old(cooldowns)@, user).eligibility(RestrictionKind::Loss, now as int),
            now,
        ),
        final(cooldowns)@ == if decision is Accepted || decision is RejectedCooldown {
            old(cooldowns)@.insert(user, record_of(old(cooldowns)@, user))
        } else {
            old(cooldowns)@
        },
{
    let early = coordinator.weigh(handle, user, custom_id, Eligibility::Allowed, now);
    match early {
        AcceptDecision::Accepted => {},
        _ => {
            return early;
        },
    }
    let eligibility = cooldowns.check_eligible(user, RestrictionKind::Loss, now);
    coordinator.offer(handle, user, custom_id, eligibility, now)
}

/// Records that `winner_id` beat `loser_id` at `now`, all together: the
/// win and the streaks of the winner, the loss and the streaks of the
/// loser, and the cooldown of the loser, which starts at `now`. The
/// cooldown of the winner stays as it was.
pub fn update_users_win_loss(
    stats: &mut StatsTable,
    cooldowns: &mut CooldownLedger,
    winner_id: u64,
    loser_id: u64,
    now: i64,
)
    requires
        rows_wf(old(stats)@),
        records_wf(old(cooldowns)@),
        winner_id != loser_id,
        stats_of(old(stats)@, winner_id).has_room(),
        stats_of(old(stats)@, loser_id).has_room(),
        valid_timestamp(now as int),
    ensures
        rows_wf(final(stats)@),
        records_wf(final(cooldowns)@),
        final(stats)@ == rows_after_win_loss(old(stats)@, winner_id, loser_id),
        final(cooldowns)@ == records_after_loss(old(cooldowns)@, loser_id, now),
{
    stats.count_win_loss(winner_id, loser_id);
    cooldowns.record_outcome(loser_id, OutcomeKind::DuelLost, now);
}

/// Records a duel between `challenger` and `accepter` that the scores
/// decide: the statistics of both, and the cooldown of the loser.
pub fn record_duel_outcome(
    stats: &mut StatsTable,
    cooldowns: &mut CooldownLedger,
    challenger: u64,
    accepter: u64,
    challenger_score: usize,
    accepter_score: usize,
    now: i64,
) -> (report: DuelReport)
    requires
        rows_wf(old(stats)@),
        records_wf(old(cooldowns)@),
        challenger != accepter,
        stats_of(old(stats)@, challenger).has_room(),
        stats_of(old(stats)@, accepter).has_room(),
        valid_timestamp(now as int),
    ensures
        rows_wf(final(stats)@),
        records_wf(final(cooldowns)@),
        report == report_of(
            challenger,
            accepter,
            outcome_of(challenger_score as int, accepter_score as int),
            now,
        ),
        final(stats)@ == rows_after_duel(
            old(stats)@,
            challenger,
            accepter,
            outcome_of(challenger_score as int, accepter_score as int),
        ),
        final(cooldowns)@ == records_after_duel(
            old(cooldowns)@,
            challenger,
            accepter,
            outcome_of(challenger_score as int, accepter_score as int),
            now,
        ),
{
    let outcome = decide(challenger_score, accepter_score);
    match outcome {
        DuelOutcome::ChallengerWins => {
            update_users_win_loss(stats, cooldowns, challenger, accepter, now);
            DuelReport {
                outcome,
                winner: Some(challenger),
                loser: Some(accepter),
                silenced_until: None,
            }
        },
        DuelOutcome::AccepterWins => {
            update_users_win_loss(stats, cooldowns, accepter, challenger, now);
            DuelReport {
                outcome,
                winner: Some(accepter),
                loser: Some(challenger),
                silenced_until: None,
            }
        },
        DuelOutcome::Draw => {
            stats.update_users_drawn(challenger, accepter);
            DuelReport {
                outcome,
                winner: None,
                loser: None,
                silenced_until: Some(now + DRAW_TIMEOUT),
            }
        },
    }
}

/// Ends the duel of `challenge`, as it stands when the wait for an
/// opponent is over: fought with the scores and recorded where an opponent
/// accepted, and otherwise without a trace.
pub fn run_duel(
    stats: &mut StatsTable,
    cooldowns: &mut CooldownLedger,
    challenge: &Challenge,
    challenger_score: usize,
    accepter_score: usize,
    now: i64,
) -> (end: DuelEnd)
    requires
        rows_wf(old(stats)@),
        records_wf(old(cooldowns)@),
        challenge.wf(),
        valid_timestamp(now as int),
        challenge.outcome is Accepted ==> stats_of(old(stats)@, challenge.initiator).has_room()
            && stats_of(old(stats)@, challenge.accepted_by->Some_0).has_room(),
    ensures
        rows_wf(final(stats)@),
        records_wf(final(cooldowns)@),
        !(challenge.outcome is Accepted) ==> end == DuelEnd::OpponentNotFound && final(stats)@
            == old(stats)@ && final(cooldowns)@ == old(cooldowns)@,
        challenge.outcome is Accepted ==> {
            let accepter = challenge.accepted_by->Some_0;
            let outcome = outcome_of(challenger_score as int, accepter_score as int);
            &&& end == DuelEnd::Decided(report_of(challenge.initiator, accepter, outcome, now))
            &&& final(stats)@ == rows_after_duel(
                old(stats)@,
                challenge.initiator,
                accepter,
                outcome,
            )
            &&& final(cooldowns)@ == records_after_duel(
                old(cooldowns)@,
                challenge.initiator,
                accepter,
                outcome,
                now,
            )
        },
{
    match (challenge.outcome, challenge.accepted_by) {
        (Outcome::Accepted, Some(accepter)) => DuelEnd::Decided(
            record_duel_outcome(
                stats,
                cooldowns,
                challenge.initiator,
                accepter,
                challenger_score,
                accepter_score,
                now,
            ),
        ),
        _ => DuelEnd::OpponentNotFound,
    }
}

/// The lines of a user's scoresheet.
pub struct Scoresheet {
    /// The totals: wins, losses and draws.
    pub title: String,
    /// The running streak, the best and the worst, one to a line.
    pub description: String,
}

/// The title of the scoresheet of the user called `name`.
pub open spec fn scoresheet_title(name: Seq<char>, stats: DuelStats) -> Seq<char> {
    name + "'s scoresheet: "@ + decimal(stats.wins as int) + "-"@ + decimal(stats.losses as int)
        + "-"@ + decimal(stats.draws as int)
}

/// The three lines under the title.
pub open spec fn scoresheet_description(stats: DuelStats) -> Seq<char> {
    stats.current_streak_text() + "\n"@ + stats.best_streak_text() + "\n"@
        + stats.worst_streak_text()
}

/// Writes the scoresheet of `user`, who is called `name`: `None` where
/// they have never dueled.
pub fn duelstats(stats: &StatsTable, user: u64, name: &str) -> (sheet: Option<Scoresheet>)
    requires
        rows_wf(stats@),
    ensures
        sheet is Some <==> stats@.contains_key(user),
        sheet matches Some(s) ==> s.title@ == scoresheet_title(name@, stats@[user])
            && s.description@ == scoresheet_description(stats@[user]),
{
    match stats.get_duel_stats(user) {
        None => None,
        Some(row) => {
            let mut title = String::from_str(name);
            push_text(&mut title, "'s scoresheet: ");
            push_decimal(&mut title, row.wins);
            push_text(&mut title, "-");
            push_decimal(&mut title, row.losses);
            push_text(&mut title, "-");
            push_decimal(&mut title, row.draws);
            let mut description = row.current_streak();
            push_text(&mut description, "\n");
            let best = row.best_streak();
            push_text(&mut description, best.as_str());
            push_text(&mut description, "\n");
            let worst = row.worst_streak();
            push_text(&mut description, worst.as_str());
            Some(Scoresheet { title, description })
        },
    }
}

/// The outcome of a duel and the update of the statistics are functions of
/// the two scores alone. The higher score wins: the winner's win streak
/// grows by one and their loss streak ends, the loser's loss streak grows
/// by one and their win streak ends. Equal scores draw: both count one more
/// draw and both their streaks end.
pub proof fn lemma_duel_update(
    rows: Map<u64, DuelStats>,
    challenger: u64,
    accepter: u64,
    challenger_score: int,
    accepter_score: int,
)
    requires
        rows_wf(rows),
        challenger != accepter,
        stats_of(rows, challenger).has_room(),
        stats_of(rows, accepter).has_room(),
    ensures
        ({
            let after = rows_after_duel(
                rows,
                challenger,
                accepter,
                outcome_of(challenger_score, accepter_score),
            );
            let c0 = stats_of(rows, challenger);
            let a0 = stats_of(rows, accepter);
            let c1 = stats_of(after, challenger);
            let a1 = stats_of(after, accepter);
            &&& challenger_score > accepter_score ==> c1.win_streak == c0.win_streak + 1
                && c1.loss_streak == 0 && c1.wins == c0.wins + 1 && a1.loss_streak
                == a0.loss_streak + 1 && a1.win_streak == 0 && a1.losses == a0.losses + 1
            &&& challenger_score < accepter_score ==> a1.win_streak == a0.win_streak + 1
                && a1.loss_streak == 0 && a1.wins == a0.wins + 1 && c1.loss_streak
                == c0.loss_streak + 1 && c1.win_streak == 0 && c1.losses == c0.losses + 1
            &&& challenger_score == accepter_score ==> c1.draws == c0.draws + 1 && a1.draws
                == a0.draws + 1 && c1.win_streak == 0 && c1.loss_streak == 0 && a1.win_streak == 0
                && a1.loss_streak == 0
            &&& forall|other: u64|
                other != challenger && other != accepter ==> after.contains_key(other)
                    == rows.contains_key(other) && stats_of(after, other) == stats_of(rows, other)
        }),
        rows_wf(
            rows_after_duel(
                rows,
                challenger,
                accepter,
                outcome_of(challenger_score, accepter_score),
            ),
        ),
{
}

} // verus!
