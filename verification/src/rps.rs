//! A rock-paper-scissors match: after the invitation is accepted, each of
//! the two participants picks a weapon in private, and the match is decided
//! once both have picked. A participant who picks nothing in time abandons
//! the exchange: it is cancelled, and nobody wins or loses.

use vstd::prelude::*;
use vstd::string::*;
use crate::challenge::{
    AcceptDecision, Coordinator, GameType, OpenError, RPS_WAIT, SessionHandle, Sessions,
    accept_button_id,
};
use crate::cooldown::Eligibility;
use crate::text::push_text;
use crate::weapon::{Score, Weapon};

verus! {

/// How far the exchange of weapons has come.
#[derive(Debug, Clone, Copy, PartialEq, Eq, Structural)]
pub enum Phase {
    Choosing,
    Resolved,
    Cancelled,
}

/// What a press of a weapon button comes to.
#[derive(Debug, Clone, Copy, PartialEq, Eq, Structural)]
pub enum ChoiceOutcome {
    /// Not a choice that counts: nothing to answer.
    Ignored,
    /// The choice is noted, the other participant has yet to pick.
    Waiting,
    /// Both have picked. `score` is that of the challenger.
    Resolved { challenger: Weapon, accepter: Weapon, score: Score },
}

/// The two participants and what they have picked so far.
#[derive(Debug, Clone, Copy, PartialEq, Eq)]
pub struct RpsExchange {
    pub challenger: u64,
    pub accepter: u64,
    pub challenger_choice: Option<Weapon>,
    pub accepter_choice: Option<Weapon>,
    pub cancelled: bool,
    /// The instant at which the two were asked for their weapons.
    pub begun_at: i64,
}

impl RpsExchange {
    /// The two participants differ.
    pub open spec fn wf(self) -> bool {
        self.challenger != self.accepter
    }

    /// The exchange at its start, at the instant `now`.
    pub open spec fn begun(challenger: u64, accepter: u64, now: i64) -> RpsExchange {
        RpsExchange {
            challenger,
            accepter,
            challenger_choice: None,
            accepter_choice: None,
            cancelled: false,
            begun_at: now,
        }
    }

    /// The first instant at which a weapon no longer counts: the full wait
    /// after the two were asked.
    pub open spec fn deadline(self) -> int {
        self.begun_at + RPS_WAIT
    }

    /// The seconds left at `now` for a participant to pick: none from the
    /// deadline on, and never more than the full wait.
    pub open spec fn remaining(self, now: int) -> int {
        let left = self.deadline() - now;
        if left <= 0 {
            0
        } else if left >= RPS_WAIT {
            RPS_WAIT as int
        } else {
            left
        }
    }

    pub open spec fn phase(self) -> Phase {
        if self.cancelled {
            Phase::Cancelled
        } else if self.challenger_choice is Some && self.accepter_choice is Some {
            Phase::Resolved
        } else {
            Phase::Choosing
        }
    }

    /// Whether `user` is a participant who has yet to pick.
    pub open spec fn awaits(self, user: u64) -> bool {
        self.phase() is Choosing && ((user == self.challenger && self.challenger_choice is None)
            || (user == self.accepter && self.accepter_choice is None))
    }

    /// The weapon that a press of `button` by `user` at `now` picks, if it
    /// counts: the user is awaited, the press comes before the deadline,
    /// and the button is that of a weapon.
    pub open spec fn counted(self, user: u64, button: Seq<char>, now: i64) -> Option<Weapon> {
        if self.awaits(user) && now < self.deadline() {
            Weapon::of_button(button)
        } else {
            None
        }
    }

    /// The exchange after a press of `button` by `user`.
    pub open spec fn after_choice(self, user: u64, button: Seq<char>, now: i64) -> RpsExchange {
        match self.counted(user, button, now) {
            None => self,
            Some(weapon) => if user == self.challenger {
                RpsExchange { challenger_choice: Some(weapon), ..self }
            } else {
                RpsExchange { accepter_choice: Some(weapon), ..self }
            },
        }
    }

    /// What a press of `button` by `user` comes to.
    pub open spec fn choice_outcome(self, user: u64, button: Seq<char>, now: i64) -> ChoiceOutcome {
        if self.counted(user, button, now) is None {
            ChoiceOutcome::Ignored
        } else {
            let next = self.after_choice(user, button, now);
            match (next.challenger_choice, next.accepter_choice) {
                (Some(c), Some(a)) => ChoiceOutcome::Resolved {
                    challenger: c,
                    accepter: a,
                    score: c.score_against(a),
                },
                _ => ChoiceOutcome::Waiting,
            }
        }
    }

    /// The exchange after the time of `user` ran out: cancelled, if the
    /// user was still awaited.
    pub open spec fn after_timeout(self, user: u64) -> RpsExchange {
        if self.awaits(user) {
            RpsExchange { cancelled: true, ..self }
        } else {
            self
        }
    }

    /// Starts the exchange between `challenger` and the `accepter` of the
    /// invitation.
    pub fn new(challenger: u64, accepter: u64, now: i64) -> (exchange: RpsExchange)
        requires
            challenger != accepter,
        ensures
            exchange == RpsExchange::begun(challenger, accepter, now),
            exchange.wf(),
            exchange.phase() is Choosing,
    {
        RpsExchange {
            challenger,
            accepter,
            challenger_choice: None,
            accepter_choice: None,
            cancelled: false,
            begun_at: now,
        }
    }

    /// The seconds left at `now` for a participant to pick a weapon.
    pub fn remaining_wait(&self, now: i64) -> (seconds: u64)
        ensures
            seconds == self.remaining(now as int),
            seconds == 0 <==> now >= self.deadline(),
    {
        let left: i128 = (self.begun_at as i128) + (RPS_WAIT as i128) - (now as i128);
        if left <= 0 {
            0
        } else if left >= RPS_WAIT as i128 {
            RPS_WAIT
        } else {
            left as u64
        }
    }

    /// How far the exchange has come.
    pub fn current_phase(&self) -> (phase: Phase)
        ensures
            phase == self.phase(),
    {
        if self.cancelled {
            Phase::Cancelled
        } else if self.challenger_choice.is_some() && self.accepter_choice.is_some() {
            Phase::Resolved
        } else {
            Phase::Choosing
        }
    }

    /// Whether `user` is a participant who has yet to pick.
    pub fn is_awaiting(&self, user: u64) -> (awaited: bool)
        ensures
            awaited == self.awaits(user),
    {
        matches!(self.current_phase(), Phase::Choosing) && ((user == self.challenger
            && self.challenger_choice.is_none()) || (user == self.accepter
            && self.accepter_choice.is_none()))
    }

    /// Takes a press of the button `custom_id` by `user` at `now`. Only the
    /// first weapon that a participant picks counts, and only before the
    /// deadline. With the second participant's pick the match is decided.
    pub fn pick(&mut self, user: u64, custom_id: &str, now: i64) -> (outcome: ChoiceOutcome)
        requires
            old(self).wf(),
        ensures
            outcome == old(self).choice_outcome(user, custom_id@, now),
            *final(self) == old(self).after_choice(user, custom_id@, now),
            final(self).wf(),
    {
        if !self.is_awaiting(user) || self.remaining_wait(now) == 0 {
            return ChoiceOutcome::Ignored;
        }
        match Weapon::from_str(custom_id) {
            Err(_) => ChoiceOutcome::Ignored,
            Ok(weapon) => {
                if user == self.challenger {
                    self.challenger_choice = Some(weapon);
                } else {
                    self.accepter_choice = Some(weapon);
                }
                match (self.challenger_choice, self.accepter_choice) {
                    (Some(c), Some(a)) => ChoiceOutcome::Resolved {
                        challenger: c,
                        accepter: a,
                        score: c.compare(a),
                    },
                    _ => ChoiceOutcome::Waiting,
                }
            },
        }
    }

    /// Notes that the time of `user` to pick has run out. Returns whether
    /// this cancelled the exchange.
    pub fn time_out(&mut self, user: u64) -> (cancelled: bool)
        requires
            old(self).wf(),
        ensures
            cancelled == old(self).awaits(user),
            *final(self) == old(self).after_timeout(user),
            final(self).wf(),
    {
        if self.is_awaiting(user) {
            self.cancelled = true;
            true
        } else {
            false
        }
    }
}

/// The line that names the winner, seen from the challenger's score.
pub open spec fn verdict_text(challenger: Seq<char>, accepter: Seq<char>, score: Score) -> Seq<
    char,
> {
    match score {
        Score::Win => challenger + " wins!"@,
        Score::Loss => accepter + " wins!"@,
        Score::Draw => "It's a draw!"@,
    }
}

/// The two lines that close a decided match.
pub open spec fn announcement_text(
    challenger: Seq<char>,
    accepter: Seq<char>,
    challenger_choice: Weapon,
    accepter_choice: Weapon,
) -> Seq<char> {
    challenger + " picks "@ + challenger_choice.name() + ", "@ + accepter + " picks "@
        + accepter_choice.name() + "\n"@ + verdict_text(
        challenger,
        accepter,
        challenger_choice.score_against(accepter_choice),
    )
}

/// Words the end of a decided match between the participants named
/// `challenger` and `accepter`.
pub fn announcement(
    challenger: &str,
    accepter: &str,
    challenger_choice: Weapon,
    accepter_choice: Weapon,
) -> (text: String)
    ensures
        text@ == announcement_text(challenger@, accepter@, challenger_choice, accepter_choice),
{
    let mut text = String::from_str(challenger);
    push_text(&mut text, " picks ");
    push_text(&mut text, challenger_choice.to_str());
    push_text(&mut text, ", ");
    push_text(&mut text, accepter);
    push_text(&mut text, " picks ");
    push_text(&mut text, accepter_choice.to_str());
    push_text(&mut text, "\n");
    match challenger_choice.compare(accepter_choice) {
        Score::Win => {
            push_text(&mut text, challenger);
            push_text(&mut text, " wins!");
        },
        Score::Loss => {
            push_text(&mut text, accepter);
            push_text(&mut text, " wins!");
        },
        Score::Draw => {
            push_text(&mut text, "It's a draw!");
        },
    }
    assert(text@ =~= announcement_text(
        challenger@,
        accepter@,
        challenger_choice,
        accepter_choice,
    ));
    text
}

/// The match is decided exactly when both participants have picked in
/// time and neither has let their time run out, and then by the two
/// weapons alone: the order in which they were picked makes no difference.
pub proof fn lemma_order_of_choices_is_immaterial(
    start: RpsExchange,
    first: Seq<char>,
    second: Seq<char>,
    sooner: i64,
    later: i64,
)
    requires
        start.wf(),
        start == RpsExchange::begun(start.challenger, start.accepter, start.begun_at),
        Weapon::of_button(first) is Some,
        Weapon::of_button(second) is Some,
        sooner < start.deadline(),
        later < start.deadline(),
    ensures
        start.after_choice(start.challenger, first, sooner).after_choice(
            start.accepter,
            second,
            later,
        ) == start.after_choice(start.accepter, second, sooner).after_choice(
            start.challenger,
            first,
            later,
        ),
        start.after_choice(start.challenger, first, sooner).choice_outcome(
            start.accepter,
            second,
            later,
        ) == start.after_choice(start.accepter, second, sooner).choice_outcome(
            start.challenger,
            first,
            later,
        ),
        start.after_choice(start.challenger, first, sooner).choice_outcome(
            start.accepter,
            second,
            later,
        ) == (ChoiceOutcome::Resolved {
            challenger: Weapon::of_button(first)->Some_0,
            accepter: Weapon::of_button(second)->Some_0,
            score: Weapon::of_button(first)->Some_0.score_against(
                Weapon::of_button(second)->Some_0,
            ),
        }),
{
}

/// A participant who lets their time run out cancels the exchange for
/// good: no later press decides it. And a press at the deadline or later
/// counts for nothing.
pub proof fn lemma_missing_choice_cancels(
    exchange: RpsExchange,
    absent: u64,
    user: u64,
    button: Seq<char>,
    now: i64,
)
    requires
        exchange.wf(),
        exchange.awaits(absent),
    ensures
        exchange.after_timeout(absent).phase() is Cancelled,
        exchange.after_timeout(absent).choice_outcome(user, button, now) is Ignored,
        exchange.after_timeout(absent).after_choice(user, button, now) == exchange.after_timeout(
            absent,
        ),
        now >= exchange.deadline() ==> exchange.choice_outcome(user, button, now) is Ignored
            && exchange.after_choice(user, button, now) == exchange,
{
}

/// What is to be done about an event of a match.
#[derive(Debug, Clone, Copy, PartialEq, Eq, Structural)]
pub enum RpsAction {
    /// Nothing: the event does not count.
    Nothing,
    /// Tell the challenger that they cannot fight themselves.
    RefuseSelf,
    /// Tell the user that the invitation is no longer open.
    RefuseLate,
    /// Ask the challenger and `accepter` for their weapons, in private.
    RequestWeapons { accepter: u64 },
    /// Thank the user for their choice.
    AcknowledgeChoice,
    /// Thank the user for their choice, and announce how the match ended.
    /// `score` is that of the challenger.
    Announce { challenger_choice: Weapon, accepter_choice: Weapon, score: Score },
    /// Announce that nobody took the challenge up.
    AnnounceNoTaker,
    /// Drop the match without a word: a participant did not pick.
    Abandon,
}

/// A match from the invitation to its end.
#[derive(Debug, Clone, Copy, PartialEq, Eq)]
pub struct RpsMatch {
    pub handle: SessionHandle,
    pub exchange: Option<RpsExchange>,
}

/// What the answer of the coordinator to a press on the invitation asks for.
pub open spec fn invite_action(decision: AcceptDecision, user: u64) -> RpsAction {
    match decision {
        AcceptDecision::RejectedSelf => RpsAction::RefuseSelf,
        AcceptDecision::BeatenToIt => RpsAction::RefuseLate,
        AcceptDecision::TooLate => RpsAction::RefuseLate,
        AcceptDecision::Accepted => RpsAction::RequestWeapons { accepter: user },
        _ => RpsAction::Nothing,
    }
}

/// What the outcome of a press of a weapon button asks for.
pub open spec fn choice_action(outcome: ChoiceOutcome) -> RpsAction {
    match outcome {
        ChoiceOutcome::Ignored => RpsAction::Nothing,
        ChoiceOutcome::Waiting => RpsAction::AcknowledgeChoice,
        ChoiceOutcome::Resolved { challenger, accepter, score } => RpsAction::Announce {
            challenger_choice: challenger,
            accepter_choice: accepter,
            score,
        },
    }
}

impl RpsMatch {
    /// The match is of the right game, and the exchange, once begun, is
    /// between the challenger and another user.
    pub open spec fn wf(self) -> bool {
        &&& self.handle.game == GameType::Rps
        &&& self.exchange matches Some(e) ==> e.wf() && e.challenger == self.handle.initiator
    }

    /// What a press of `button` by `user` asks for: while the invitation
    /// is open the coordinator decides, and after that the exchange.
    pub open spec fn press_action(
        self,
        sessions: Sessions,
        user: u64,
        button: Seq<char>,
        now: i64,
    )
        -> RpsAction {
        match self.exchange {
            None => invite_action(
                sessions.accept_decision(
                    self.handle,
                    user,
                    button == accept_button_id(GameType::Rps),
                    Eligibility::Allowed,
                    now,
                ),
                user,
            ),
            Some(e) => choice_action(e.choice_outcome(user, button, now)),
        }
    }

    /// The match after a press of `button` by `user`.
    pub open spec fn after_press(
        self,
        sessions: Sessions,
        user: u64,
        button: Seq<char>,
        now: i64,
    )
        -> RpsMatch {
        match self.exchange {
            None => if sessions.accept_decision(
                self.handle,
                user,
                button == accept_button_id(GameType::Rps),
                Eligibility::Allowed,
                now,
            ) is Accepted {
                RpsMatch {
                    exchange: Some(RpsExchange::begun(self.handle.initiator, user, now)),
                    ..self
                }
            } else {
                self
            },
            Some(e) => RpsMatch { exchange: Some(e.after_choice(user, button, now)), ..self },
        }
    }

    /// The sessions after a press of `button` by `user`: an acceptance is
    /// noted, and the lease is given back once the match is decided.
    pub open spec fn sessions_after_press(
        self,
        sessions: Sessions,
        user: u64,
        button: Seq<char>,
        now: i64,
    )
        -> Sessions {
        match self.exchange {
            None => sessions.after_offer(
                self.handle,
                user,
                button == accept_button_id(GameType::Rps),
                Eligibility::Allowed,
                now,
            ),
            Some(e) => if e.choice_outcome(user, button, now) is Resolved {
                sessions.after_close(self.handle)
            } else {
                sessions
            },
        }
    }

    /// Takes a press of the button `custom_id` by `user` at `now`, on the
    /// invitation or on a request for a weapon. The participants have the
    /// full wait to pick, counted from the acceptance.
    pub fn press(
        &mut self,
        coordinator: &mut Coordinator,
        user: u64,
        custom_id: &str,
        now: i64,
    ) -> (action: RpsAction)
        requires
            old(self).wf(),
            old(coordinator)@.wf(),
        ensures
            final(self).wf(),
            final(coordinator)@.wf(),
            final(coordinator).has_room() == old(coordinator).has_room(),
            action == old(self).press_action(old(coordinator)@, user, custom_id@, now),
            *final(self) == old(self).after_press(old(coordinator)@, user, custom_id@, now),
            final(coordinator)@ == old(self).sessions_after_press(
                old(coordinator)@,
                user,
                custom_id@,
                now,
            ),
    {
        match self.exchange {
            None => {
                let decision = coordinator.offer(
                    &self.handle,
                    user,
                    custom_id,
                    Eligibility::Allowed,
                    now,
                );
                match decision {
                    AcceptDecision::RejectedSelf => RpsAction::RefuseSelf,
                    AcceptDecision::BeatenToIt => RpsAction::RefuseLate,
                    AcceptDecision::TooLate => RpsAction::RefuseLate,
                    AcceptDecision::Accepted => {
                        self.exchange = Some(RpsExchange::new(self.handle.initiator, user, now));
                        RpsAction::RequestWeapons { accepter: user }
                    },
                    _ => RpsAction::Nothing,
                }
            },
            Some(mut exchange) => {
                let outcome = exchange.pick(user, custom_id, now);
                self.exchange = Some(exchange);
                match outcome {
                    ChoiceOutcome::Ignored => RpsAction::Nothing,
                    ChoiceOutcome::Waiting => RpsAction::AcknowledgeChoice,
                    ChoiceOutcome::Resolved { challenger, accepter, score } => {
                        let _ = coordinator.close(&self.handle);
                        RpsAction::Announce {
                            challenger_choice: challenger,
                            accepter_choice: accepter,
                            score,
                        }
                    },
                }
            },
        }
    }

    /// Notes that the wait for an opponent has run out. An invitation that
    /// nobody accepted expires and its lease is given back.
    pub fn invite_timed_out(&mut self, coordinator: &mut Coordinator) -> (action: RpsAction)
        requires
            old(self).wf(),
            old(coordinator)@.wf(),
        ensures
            final(self).wf(),
            *final(self) == *old(self),
            final(coordinator)@.wf(),
            final(coordinator).has_room() == old(coordinator).has_room(),
            action == if old(self).exchange is None && old(coordinator)@.awaiting(
                old(self).handle,
            ) {
                RpsAction::AnnounceNoTaker
            } else {
                RpsAction::Nothing
            },
            final(coordinator)@ == if action is AnnounceNoTaker {
                old(coordinator)@.after_close(old(self).handle)
            } else {
                old(coordinator)@
            },
    {
        if self.exchange.is_none() && coordinator.expire(&self.handle) {
            let _ = coordinator.close(&self.handle);
            assert(coordinator@ =~= old(coordinator)@.after_close(self.handle));
            RpsAction::AnnounceNoTaker
        } else {
            RpsAction::Nothing
        }
    }

    /// Notes that the time of `user` to pick a weapon has run out. A
    /// participant who was still awaited abandons the exchange: the match
    /// is cancelled, its lease given back, and nobody wins or loses.
    pub fn choice_timed_out(&mut self, coordinator: &mut Coordinator, user: u64) -> (action:
        RpsAction)
        requires
            old(self).wf(),
            old(coordinator)@.wf(),
        ensures
            final(self).wf(),
            final(coordinator)@.wf(),
            final(coordinator).has_room() == old(coordinator).has_room(),
            final(self).handle == old(self).handle,
            action == if old(self).exchange matches Some(e) && e.awaits(user) {
                RpsAction::Abandon
            } else {
                RpsAction::Nothing
            },
            final(self).exchange == match old(self).exchange {
                Some(e) => Some(e.after_timeout(user)),
                None => None,
            },
            final(coordinator)@ == if action is Abandon {
                old(coordinator)@.after_close(old(self).handle)
            } else {
                old(coordinator)@
            },
    {
        match self.exchange {
            None => RpsAction::Nothing,
            Some(mut exchange) => {
                let cancelled = exchange.time_out(user);
                self.exchange = Some(exchange);
                if cancelled {
                    let _ = coordinator.cancel(&self.handle);
                    let _ = coordinator.close(&self.handle);
                    assert(coordinator@ =~= old(coordinator)@.after_close(self.handle));
                    RpsAction::Abandon
                } else {
                    RpsAction::Nothing
                }
            },
        }
    }
}

/// Opens a match for `challenger`: rejected while another match is open.
pub fn rps(coordinator: &mut Coordinator, challenger: u64, now: i64) -> (result: Result<
    RpsMatch,
    OpenError,
>)
    requires
        old(coordinator)@.wf(),
        old(coordinator).has_room(),
    ensures
        final(coordinator)@.wf(),
        final(coordinator)@ == old(coordinator)@.after_open(
            GameType::Rps,
            challenger,
            Eligibility::Allowed,
            now,
        ),
        match result {
            Ok(game) => old(coordinator)@.open_result(
                GameType::Rps,
                challenger,
                Eligibility::Allowed,
            ) == Ok::<SessionHandle, OpenError>(game.handle) && game.exchange is None && game.wf()
                && final(coordinator)@.awaiting(game.handle),
            Err(error) => error == OpenError::AlreadyInProgress && old(coordinator)@.in_progress(
                GameType::Rps,
            ),
        },
{
    match coordinator.open(GameType::Rps, challenger, Eligibility::Allowed, now) {
        Ok(handle) => Ok(RpsMatch { handle, exchange: None }),
        Err(error) => Err(error),
    }
}

/// A match is announced once: after the press that decides it, no press
/// and no timeout asks for anything more.
pub proof fn lemma_announced_once(
    game: RpsMatch,
    sessions: Sessions,
    user: u64,
    button: Seq<char>,
    now: i64,
    later_user: u64,
    later_button: Seq<char>,
    later: i64,
)
    requires
        game.wf(),
        sessions.wf(),
        game.press_action(sessions, user, button, now) is Announce,
    ensures
        game.after_press(sessions, user, button, now).press_action(
            game.sessions_after_press(sessions, user, button, now),
            later_user,
            later_button,
            later,
        ) is Nothing,
        game.after_press(sessions, user, button, now).exchange matches Some(e) && !e.awaits(
            later_user,
        ),
        !game.sessions_after_press(sessions, user, button, now).holds(game.handle),
{
}

} // verus!
