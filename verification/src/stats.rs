//! Per-user duel statistics: totals, the running streak and the records.

use std::collections::HashMap;
use vstd::prelude::*;
use vstd::string::*;
use crate::text::{decimal, push_decimal, push_text};

verus! {

/// The duel history of one user in numbers.
#[derive(Debug, Clone, Copy, PartialEq, Eq, Structural)]
pub struct DuelStats {
    pub user_id: u64,
    pub losses: i64,
    pub wins: i64,
    pub draws: i64,
    pub win_streak: i64,
    pub loss_streak: i64,
    pub win_streak_max: i64,
    pub loss_streak_max: i64,
}

impl DuelStats {
    /// At most one of the two running streaks is above zero.
    pub open spec fn streaks_exclusive(self) -> bool {
        self.win_streak == 0 || self.loss_streak == 0
    }

    /// What holds of every row: a win ends the loss streak, a loss the win
    /// streak and a draw both, so that the two never run together.
    pub open spec fn wf(self) -> bool {
        self.streaks_exclusive()
    }

    /// Whether every total and streak can still grow by one.
    pub open spec fn has_room(self) -> bool {
        &&& self.wins < i64::MAX
        &&& self.losses < i64::MAX
        &&& self.draws < i64::MAX
        &&& self.win_streak < i64::MAX
        &&& self.loss_streak < i64::MAX
    }

    /// The row of a user who has not dueled yet.
    pub open spec fn fresh(user_id: u64) -> DuelStats {
        DuelStats {
            user_id,
            losses: 0,
            wins: 0,
            draws: 0,
            win_streak: 0,
            loss_streak: 0,
            win_streak_max: 0,
            loss_streak_max: 0,
        }
    }

    /// The row after a win: one more win, the win streak one longer and its
    /// record raised to it, the loss streak over.
    pub open spec fn after_win(self) -> DuelStats {
        DuelStats {
            wins: (self.wins + 1) as i64,
            win_streak: (self.win_streak + 1) as i64,
            win_streak_max: if self.win_streak_max >= self.win_streak + 1 {
                self.win_streak_max
            } else {
                (self.win_streak + 1) as i64
            },
            loss_streak: 0,
            ..self
        }
    }

    /// The row after a loss: the mirror image of a win.
    pub open spec fn after_loss(self) -> DuelStats {
        DuelStats {
            losses: (self.losses + 1) as i64,
            loss_streak: (self.loss_streak + 1) as i64,
            loss_streak_max: if self.loss_streak_max >= self.loss_streak + 1 {
                self.loss_streak_max
            } else {
                (self.loss_streak + 1) as i64
            },
            win_streak: 0,
            ..self
        }
    }

    /// The row after a draw: one more draw, both streaks over.
    pub open spec fn after_draw(self) -> DuelStats {
        DuelStats { draws: (self.draws + 1) as i64, win_streak: 0, loss_streak: 0, ..self }
    }

    /// The line that tells the running streak.
    pub open spec fn current_streak_text(self) -> Seq<char> {
        if self.win_streak == 0 && self.loss_streak == 0 && self.draws == 0 {
            "You have never dueled before"@
        } else if self.win_streak == 0 && self.loss_streak == 0 {
            "Your last duel was a draw"@
        } else if self.win_streak == 0 {
            "Current streak **"@ + decimal(self.loss_streak as int) + " losses**"@
        } else {
            "Current streak **"@ + decimal(self.win_streak as int) + " wins**"@
        }
    }

    /// The line that tells the longest win streak.
    pub open spec fn best_streak_text(self) -> Seq<char> {
        "Best streak: **"@ + decimal(self.win_streak_max as int) + " wins**"@
    }

    /// The line that tells the longest loss streak.
    pub open spec fn worst_streak_text(self) -> Seq<char> {
        "Worst streak: **"@ + decimal(self.loss_streak_max as int) + " losses**"@
    }

    /// The row of a user who has not dueled yet.
    pub fn new(user_id: u64) -> (stats: DuelStats)
        ensures
            stats == DuelStats::fresh(user_id),
            stats.wf(),
    {
        DuelStats {
            user_id,
            losses: 0,
            wins: 0,
            draws: 0,
            win_streak: 0,
            loss_streak: 0,
            win_streak_max: 0,
            loss_streak_max: 0,
        }
    }

    /// Whether at most one of the two streaks runs.
    pub fn is_valid(&self) -> (valid: bool)
        ensures
            valid == self.wf(),
    {
        self.win_streak == 0 || self.loss_streak == 0
    }

    /// Counts a win.
    pub fn record_win(&mut self)
        requires
            old(self).has_room(),
        ensures
            *final(self) == old(self).after_win(),
            final(self).wf(),
    {
        self.wins = self.wins + 1;
        self.win_streak = self.win_streak + 1;
        if self.win_streak_max < self.win_streak {
            self.win_streak_max = self.win_streak;
        }
        self.loss_streak = 0;
    }

    /// Counts a loss.
    pub fn record_loss(&mut self)
        requires
            old(self).has_room(),
        ensures
            *final(self) == old(self).after_loss(),
            final(self).wf(),
    {
        self.losses = self.losses + 1;
        self.loss_streak = self.loss_streak + 1;
        if self.loss_streak_max < self.loss_streak {
            self.loss_streak_max = self.loss_streak;
        }
        self.win_streak = 0;
    }

    /// Counts a draw.
    pub fn record_draw(&mut self)
        requires
            old(self).has_room(),
        ensures
            *final(self) == old(self).after_draw(),
            final(self).wf(),
    {
        self.draws = self.draws + 1;
        self.win_streak = 0;
        self.loss_streak = 0;
    }

    /// Tells the running streak in words.
    pub fn current_streak(&self) -> (line: String)
        requires
            self.streaks_exclusive(),
        ensures
            line@ == self.current_streak_text(),
    {
        if self.win_streak == 0 && self.loss_streak == 0 && self.draws == 0 {
            String::from_str("You have never dueled before")
        } else if self.win_streak == 0 && self.loss_streak == 0 {
            String::from_str("Your last duel was a draw")
        } else if self.win_streak == 0 {
            let mut line = String::from_str("Current streak **");
            push_decimal(&mut line, self.loss_streak);
            push_text(&mut line, " losses**");
            line
        } else {
            let mut line = String::from_str("Current streak **");
            push_decimal(&mut line, self.win_streak);
            push_text(&mut line, " wins**");
            line
        }
    }

    /// Tells the longest win streak in words.
    pub fn best_streak(&self) -> (line: String)
        ensures
            line@ == self.best_streak_text(),
    {
        let mut line = String::from_str("Best streak: **");
        push_decimal(&mut line, self.win_streak_max);
        push_text(&mut line, " wins**");
        line
    }

    /// Tells the longest loss streak in words.
    pub fn worst_streak(&self) -> (line: String)
        ensures
            line@ == self.worst_streak_text(),
    {
        let mut line = String::from_str("Worst streak: **");
        push_decimal(&mut line, self.loss_streak_max);
        push_text(&mut line, " losses**");
        line
    }
}

/// The row that `rows` hold of `user`: that of a newcomer where they hold
/// none.
pub open spec fn stats_of(rows: Map<u64, DuelStats>, user: u64) -> DuelStats {
    if rows.contains_key(user) {
        rows[user]
    } else {
        DuelStats::fresh(user)
    }
}

/// Whether every row is sound and filed under its own user.
pub open spec fn rows_wf(rows: Map<u64, DuelStats>) -> bool {
    forall|user: u64|
        rows.contains_key(user) ==> (#[trigger] rows[user]).wf() && rows[user].user_id == user
}

/// The rows after `winner` beat `loser`.
pub open spec fn rows_after_win_loss(rows: Map<u64, DuelStats>, winner: u64, loser: u64) -> Map<
    u64,
    DuelStats,
> {
    rows.insert(winner, stats_of(rows, winner).after_win()).insert(
        loser,
        stats_of(rows, loser).after_loss(),
    )
}

/// The rows after `challenger` and `accepter` drew.
pub open spec fn rows_after_draw(rows: Map<u64, DuelStats>, challenger: u64, accepter: u64) -> Map<
    u64,
    DuelStats,
> {
    rows.insert(challenger, stats_of(rows, challenger).after_draw()).insert(
        accepter,
        stats_of(rows, accepter).after_draw(),
    )
}

/// The duel statistics of all users, each entered with their first duel.
pub struct StatsTable {
    rows: HashMap<u64, DuelStats>,
}

impl View for StatsTable {
    type V = Map<u64, DuelStats>;

    closed spec fn view(&self) -> Map<u64, DuelStats> {
        self.rows@
    }
}

impl StatsTable {
    /// A table without rows.
    pub fn new() -> (table: StatsTable)
        ensures
            table@ == Map::<u64, DuelStats>::empty(),
            rows_wf(table@),
    {
        StatsTable { rows: HashMap::new() }
    }

    /// Puts a row back that was kept elsewhere, under the user that it
    /// names. A row in which both streaks run is refused.
    /// Returns whether the row was taken.
    pub fn restore(&mut self, row: DuelStats) -> (taken: bool)
        requires
            rows_wf(old(self)@),
        ensures
            taken == row.wf(),
            final(self)@ == if taken {
                old(self)@.insert(row.user_id, row)
            } else {
                old(self)@
            },
            rows_wf(final(self)@),
    {
        broadcast use vstd::std_specs::hash::group_hash_axioms;

        if row.is_valid() {
            self.rows.insert(row.user_id, row);
            true
        } else {
            false
        }
    }

    /// The row of `user_id`, if they have dueled.
    pub fn get_duel_stats(&self, user_id: u64) -> (stats: Option<DuelStats>)
        ensures
            stats == if self@.contains_key(user_id) {
                Some(self@[user_id])
            } else {
                None
            },
    {
        broadcast use vstd::std_specs::hash::group_hash_axioms;

        match self.rows.get(&user_id) {
            Some(stats) => Some(*stats),
            None => None,
        }
    }

    /// Whether one more duel of `user_id` can be counted.
    pub fn can_record(&self, user_id: u64) -> (room: bool)
        ensures
            room == stats_of(self@, user_id).has_room(),
    {
        match self.get_duel_stats(user_id) {
            Some(stats) => stats.wins < i64::MAX && stats.losses < i64::MAX && stats.draws
                < i64::MAX && stats.win_streak < i64::MAX && stats.loss_streak < i64::MAX,
            None => true,
        }
    }

    fn row(&self, user_id: u64) -> (stats: DuelStats)
        requires
            rows_wf(self@),
        ensures
            stats == stats_of(self@, user_id),
            stats.wf(),
            stats.user_id == user_id,
    {
        match self.get_duel_stats(user_id) {
            Some(stats) => stats,
            None => DuelStats::new(user_id),
        }
    }

    /// Counts a duel that `winner_id` won against `loser_id`, in the
    /// statistics alone.
    pub(crate) fn count_win_loss(&mut self, winner_id: u64, loser_id: u64)
        requires
            rows_wf(old(self)@),
            winner_id != loser_id,
            stats_of(old(self)@, winner_id).has_room(),
            stats_of(old(self)@, loser_id).has_room(),
        ensures
            final(self)@ == rows_after_win_loss(old(self)@, winner_id, loser_id),
            rows_wf(final(self)@),
    {
        broadcast use vstd::std_specs::hash::group_hash_axioms;

        let mut winner = self.row(winner_id);
        let mut loser = self.row(loser_id);
        winner.record_win();
        loser.record_loss();
        self.rows.insert(winner_id, winner);
        self.rows.insert(loser_id, loser);
    }

    /// Counts a duel that `challenger_id` and `accepter_id` drew.
    pub fn update_users_drawn(&mut self, challenger_id: u64, accepter_id: u64)
        requires
            rows_wf(old(self)@),
            challenger_id != accepter_id,
            stats_of(old(self)@, challenger_id).has_room(),
            stats_of(old(self)@, accepter_id).has_room(),
        ensures
            final(self)@ == rows_after_draw(old(self)@, challenger_id, accepter_id),
            rows_wf(final(self)@),
    {
        broadcast use vstd::std_specs::hash::group_hash_axioms;

        let mut challenger = self.row(challenger_id);
        let mut accepter = self.row(accepter_id);
        challenger.record_draw();
        accepter.record_draw();
        self.rows.insert(challenger_id, challenger);
        self.rows.insert(accepter_id, accepter);
    }
}

} // verus!
