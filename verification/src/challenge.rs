//! The coordinator of open challenges: one invitation per game at a time,
//! accepted by the first eligible other user, or expired, or cancelled.

use vstd::prelude::*;
use crate::cooldown::Eligibility;
use crate::text::same_text;

verus! {

/// The games that are played by challenge.
#[derive(Debug, Clone, Copy, PartialEq, Eq, Structural)]
pub enum GameType {
    Duel,
    Rps,
}

/// How far an invitation has come.
#[derive(Debug, Clone, Copy, PartialEq, Eq, Structural)]
pub enum Outcome {
    Unresolved,
    Accepted,
    Expired,
    Cancelled,
}

/// One invitation to play.
#[derive(Debug, Clone, Copy, PartialEq, Eq)]
pub struct Challenge {
    pub id: u64,
    pub game: GameType,
    pub initiator: u64,
    pub created_at: i64,
    pub accepted_by: Option<u64>,
    pub outcome: Outcome,
}

/// The lease that `open` hands out, to be given back to `close`.
#[derive(Debug, Clone, Copy, PartialEq, Eq, Structural)]
pub struct SessionHandle {
    pub game: GameType,
    pub id: u64,
    pub initiator: u64,
}

/// Why a challenge could not be opened.
#[derive(Debug, Clone, Copy, PartialEq, Eq, Structural)]
pub enum OpenError {
    AlreadyInProgress,
    CooldownActive { retry_at: i64 },
}

/// What the coordinator makes of one press of a button on an invitation.
#[derive(Debug, Clone, Copy, PartialEq, Eq, Structural)]
pub enum AcceptDecision {
    /// Not the accept button: nothing to answer.
    Ignored,
    /// The initiator pressed their own invitation.
    RejectedSelf,
    /// The invitation is no longer open.
    BeatenToIt,
    /// The invitation is still open, but the wait for an opponent is over.
    TooLate,
    /// The user is under a cooldown until `retry_at`.
    RejectedCooldown { retry_at: i64 },
    /// The user is the opponent.
    Accepted,
}

/// Seconds without a press after which an invitation to a duel expires.
pub const DUEL_WAIT: u64 = 5 * 60;

/// Seconds without a press after which an invitation to a match of
/// rock-paper-scissors expires, and seconds that each participant of a
/// match has to pick a weapon.
pub const RPS_WAIT: u64 = 10 * 60;

/// Seconds to wait for a press on an invitation to `game`.
pub open spec fn wait_of(game: GameType) -> u64 {
    match game {
        GameType::Duel => DUEL_WAIT,
        GameType::Rps => RPS_WAIT,
    }
}

/// The identifier of the accept button on an invitation to `game`.
pub open spec fn accept_button_id(game: GameType) -> Seq<char> {
    match game {
        GameType::Duel => "duel-btn"@,
        GameType::Rps => "rps-btn"@,
    }
}

impl Challenge {
    /// The acceptor is recorded exactly while the invitation counts as
    /// accepted or was cancelled after that, and is never the initiator.
    pub open spec fn wf(self) -> bool {
        &&& self.outcome is Accepted ==> self.accepted_by is Some
        &&& (self.outcome is Unresolved || self.outcome is Expired) ==> self.accepted_by is None
        &&& self.accepted_by != Some(self.initiator)
    }

    /// Whether the invitation is open or being played.
    pub open spec fn active(self) -> bool {
        self.outcome is Unresolved || self.outcome is Accepted
    }

    /// The first instant at which the invitation is no longer to be
    /// accepted: the full wait after it was made.
    pub open spec fn deadline(self) -> int {
        self.created_at + wait_of(self.game)
    }

    /// The seconds left at `now` to wait for an opponent: none from the
    /// deadline on, and never more than the full wait.
    pub open spec fn remaining(self, now: int) -> int {
        let left = self.deadline() - now;
        if left <= 0 {
            0
        } else if left >= wait_of(self.game) {
            wait_of(self.game) as int
        } else {
            left
        }
    }
}

/// What the coordinator holds: the challenge of each game, if any, and the
/// number of challenges opened so far.
pub struct Sessions {
    pub duel: Option<Challenge>,
    pub rps: Option<Challenge>,
    pub opened: nat,
}

impl Sessions {
    /// Nothing opened yet.
    pub open spec fn initial() -> Sessions {
        Sessions { duel: None, rps: None, opened: 0 }
    }

    /// The challenge of `game` that has been opened and not yet closed.
    pub open spec fn slot(self, game: GameType) -> Option<Challenge> {
        match game {
            GameType::Duel => self.duel,
            GameType::Rps => self.rps,
        }
    }

    /// The same sessions with the challenge of `game` replaced.
    pub open spec fn with_slot(self, game: GameType, challenge: Option<Challenge>) -> Sessions {
        match game {
            GameType::Duel => Sessions { duel: challenge, ..self },
            GameType::Rps => Sessions { rps: challenge, ..self },
        }
    }

    /// The exclusivity flag of `game`.
    pub open spec fn in_progress(self, game: GameType) -> bool {
        self.slot(game) is Some
    }

    /// Whether the challenge of `game` is sound and was opened here.
    pub open spec fn slot_wf(self, game: GameType) -> bool {
        self.slot(game) matches Some(c) ==> c.game == game && c.id < self.opened && c.wf()
    }

    pub open spec fn wf(self) -> bool {
        self.slot_wf(GameType::Duel) && self.slot_wf(GameType::Rps)
    }

    /// Whether `handle` is the lease of the challenge that is held now.
    pub open spec fn holds(self, handle: SessionHandle) -> bool {
        self.slot(handle.game) matches Some(c) && c.id == handle.id && c.initiator
            == handle.initiator
    }

    /// Whether the challenge of `handle` is held and still open to acceptance.
    pub open spec fn awaiting(self, handle: SessionHandle) -> bool {
        self.holds(handle) && self.slot(handle.game)->Some_0.outcome is Unresolved
    }

    /// What `open` answers: busy comes before cooldown.
    pub open spec fn open_result(
        self,
        game: GameType,
        initiator: u64,
        eligibility: Eligibility,
    ) -> Result<SessionHandle, OpenError> {
        if self.in_progress(game) {
            Err(OpenError::AlreadyInProgress)
        } else {
            match eligibility {
                Eligibility::Blocked { retry_at } => Err(OpenError::CooldownActive { retry_at }),
                Eligibility::Allowed => Ok(
                    SessionHandle { game, id: self.opened as u64, initiator },
                ),
            }
        }
    }

    /// The sessions after `open`: a new unresolved challenge where it
    /// succeeds, no change where it is rejected.
    pub open spec fn after_open(
        self,
        game: GameType,
        initiator: u64,
        eligibility: Eligibility,
        now: i64,
    ) -> Sessions {
        if self.open_result(game, initiator, eligibility) is Ok {
            Sessions { opened: self.opened + 1, ..self }.with_slot(
                game,
                Some(
                    Challenge {
                        id: self.opened as u64,
                        game,
                        initiator,
                        created_at: now,
                        accepted_by: None,
                        outcome: Outcome::Unresolved,
                    },
                ),
            )
        } else {
            self
        }
    }

    /// What a press of a button by `user` at `now` comes to.
    /// `pressed_accept` tells whether it was the accept button of the game.
    /// The wait for an opponent counts from the invitation, whatever was
    /// pressed meanwhile.
    pub open spec fn accept_decision(
        self,
        handle: SessionHandle,
        user: u64,
        pressed_accept: bool,
        eligibility: Eligibility,
        now: i64,
    ) -> AcceptDecision {
        if !pressed_accept {
            AcceptDecision::Ignored
        } else if user == handle.initiator {
            AcceptDecision::RejectedSelf
        } else if !self.awaiting(handle) {
            AcceptDecision::BeatenToIt
        } else if now >= self.slot(handle.game)->Some_0.deadline() {
            AcceptDecision::TooLate
        } else {
            match eligibility {
                Eligibility::Blocked { retry_at } => AcceptDecision::RejectedCooldown { retry_at },
                Eligibility::Allowed => AcceptDecision::Accepted,
            }
        }
    }

    /// The sessions after a press of a button: only an acceptance changes them.
    pub open spec fn after_offer(
        self,
        handle: SessionHandle,
        user: u64,
        pressed_accept: bool,
        eligibility: Eligibility,
        now: i64,
    ) -> Sessions {
        if self.accept_decision(handle, user, pressed_accept, eligibility, now) is Accepted {
            let c = self.slot(handle.game)->Some_0;
            self.with_slot(
                handle.game,
                Some(Challenge { accepted_by: Some(user), outcome: Outcome::Accepted, ..c }),
            )
        } else {
            self
        }
    }

    /// The sessions after the wait for an opponent ran out.
    pub open spec fn after_expire(self, handle: SessionHandle) -> Sessions {
        if self.awaiting(handle) {
            let c = self.slot(handle.game)->Some_0;
            self.with_slot(handle.game, Some(Challenge { outcome: Outcome::Expired, ..c }))
        } else {
            self
        }
    }

    /// The sessions after the challenge was called off.
    pub open spec fn after_cancel(self, handle: SessionHandle) -> Sessions {
        if self.holds(handle) && self.slot(handle.game)->Some_0.active() {
            let c = self.slot(handle.game)->Some_0;
            self.with_slot(handle.game, Some(Challenge { outcome: Outcome::Cancelled, ..c }))
        } else {
            self
        }
    }

    /// The sessions after the lease was given back.
    pub open spec fn after_close(self, handle: SessionHandle) -> Sessions {
        if self.holds(handle) {
            self.with_slot(handle.game, None)
        } else {
            self
        }
    }
}

/// The coordinator of challenges.
pub struct Coordinator {
    duel: Option<Challenge>,
    rps: Option<Challenge>,
    opened: u64,
}

impl View for Coordinator {
    type V = Sessions;

    closed spec fn view(&self) -> Sessions {
        Sessions { duel: self.duel, rps: self.rps, opened: self.opened as nat }
    }
}

/// The identifier of the accept button on an invitation to `game`.
pub fn accept_button(game: GameType) -> (id: &'static str)
    ensures
        id@ == accept_button_id(game),
{
    match game {
        GameType::Duel => "duel-btn",
        GameType::Rps => "rps-btn",
    }
}

/// Seconds to wait for a press on an invitation to `game` before it is
/// left to expire.
pub fn wait_seconds(game: GameType) -> (seconds: u64)
    ensures
        seconds == wait_of(game),
{
    match game {
        GameType::Duel => DUEL_WAIT,
        GameType::Rps => RPS_WAIT,
    }
}

/// The seconds left at `now` to wait for an opponent to `challenge`: none
/// from the deadline on, and never more than the full wait.
pub fn remaining_wait(challenge: &Challenge, now: i64) -> (seconds: u64)
    ensures
        seconds == challenge.remaining(now as int),
        seconds == 0 <==> now >= challenge.deadline(),
{
    let wait: u64 = wait_seconds(challenge.game);
    let left: i128 = (challenge.created_at as i128) + (wait as i128) - (now as i128);
    if left <= 0 {
        0
    } else if left >= wait as i128 {
        wait
    } else {
        left as u64
    }
}

impl Coordinator {
    /// Whether another challenge can still be numbered.
    pub open spec fn has_room(&self) -> bool {
        self@.opened < u64::MAX
    }

    /// A coordinator with no challenge open.
    pub fn new() -> (coordinator: Coordinator)
        ensures
            coordinator@ == Sessions::initial(),
            coordinator@.wf(),
            coordinator.has_room(),
    {
        Coordinator { duel: None, rps: None, opened: 0 }
    }

    /// Whether another challenge can still be numbered.
    pub fn can_open(&self) -> (room: bool)
        ensures
            room == self.has_room(),
    {
        self.opened < u64::MAX
    }

    /// Whether a challenge of `game` is open: the exclusivity flag.
    pub fn in_progress(&self, game: GameType) -> (busy: bool)
        ensures
            busy == self@.in_progress(game),
    {
        match game {
            GameType::Duel => self.duel.is_some(),
            GameType::Rps => self.rps.is_some(),
        }
    }

    /// The challenge of `game` that is open, if any.
    pub fn current(&self, game: GameType) -> (challenge: Option<Challenge>)
        ensures
            challenge == self@.slot(game),
    {
        match game {
            GameType::Duel => self.duel,
            GameType::Rps => self.rps,
        }
    }

    fn put(&mut self, game: GameType, challenge: Option<Challenge>)
        ensures
            final(self)@ == old(self)@.with_slot(game, challenge),
            final(self).has_room() == old(self).has_room(),
    {
        match game {
            GameType::Duel => {
                self.duel = challenge;
            },
            GameType::Rps => {
                self.rps = challenge;
            },
        }
    }

    /// Opens a challenge of `game` for `initiator`, whose standing with the
    /// cooldowns is `eligibility`. Rejected while another one of the game
    /// is open, and otherwise while the initiator is blocked.
    pub fn open(
        &mut self,
        game: GameType,
        initiator: u64,
        eligibility: Eligibility,
        now: i64,
    ) -> (result: Result<SessionHandle, OpenError>)
        requires
            old(self)@.wf(),
            old(self).has_room(),
        ensures
            result == old(self)@.open_result(game, initiator, eligibility),
            final(self)@ == old(self)@.after_open(game, initiator, eligibility, now),
            final(self)@.wf(),
            result matches Ok(handle) ==> final(self)@.awaiting(handle),
    {
        if self.in_progress(game) {
            return Err(OpenError::AlreadyInProgress);
        }
        match eligibility {
            Eligibility::Blocked { retry_at } => Err(OpenError::CooldownActive { retry_at }),
            Eligibility::Allowed => {
                let id = self.opened;
                self.opened = self.opened + 1;
                self.put(
                    game,
                    Some(
                        Challenge {
                            id,
                            game,
                            initiator,
                            created_at: now,
                            accepted_by: None,
                            outcome: Outcome::Unresolved,
                        },
                    ),
                );
                Ok(SessionHandle { game, id, initiator })
            },
        }
    }

    fn is_awaiting(&self, handle: &SessionHandle) -> (awaiting: bool)
        ensures
            awaiting == self@.awaiting(*handle),
    {
        match self.current(handle.game) {
            Some(c) => c.id == handle.id && c.initiator == handle.initiator && matches!(
                c.outcome,
                Outcome::Unresolved
            ),
            None => false,
        }
    }

    fn is_holding(&self, handle: &SessionHandle) -> (holding: bool)
        ensures
            holding == self@.holds(*handle),
    {
        match self.current(handle.game) {
            Some(c) => c.id == handle.id && c.initiator == handle.initiator,
            None => false,
        }
    }

    /// What a press of the button `custom_id` by `user` on the invitation
    /// of `handle` would come to, without taking it.
    pub fn weigh(
        &self,
        handle: &SessionHandle,
        user: u64,
        custom_id: &str,
        eligibility: Eligibility,
        now: i64,
    ) -> (decision: AcceptDecision)
        ensures
            decision == self@.accept_decision(
                *handle,
                user,
                custom_id@ == accept_button_id(handle.game),
                eligibility,
                now,
            ),
    {
        if !same_text(custom_id, accept_button(handle.game)) {
            return AcceptDecision::Ignored;
        }
        if user == handle.initiator {
            return AcceptDecision::RejectedSelf;
        }
        if !self.is_awaiting(handle) {
            return AcceptDecision::BeatenToIt;
        }
        let challenge = self.current(handle.game).unwrap();
        if remaining_wait(&challenge, now) == 0 {
            return AcceptDecision::TooLate;
        }
        match eligibility {
            Eligibility::Blocked { retry_at } => AcceptDecision::RejectedCooldown { retry_at },
            Eligibility::Allowed => AcceptDecision::Accepted,
        }
    }

    /// Takes a press of the button `custom_id` by `user` on the invitation
    /// of `handle`. The first eligible user other than the initiator is
    /// accepted; every other press leaves the challenge as it is.
    pub fn offer(
        &mut self,
        handle: &SessionHandle,
        user: u64,
        custom_id: &str,
        eligibility: Eligibility,
        now: i64,
    ) -> (decision: AcceptDecision)
        requires
            old(self)@.wf(),
        ensures
            decision == old(self)@.accept_decision(
                *handle,
                user,
                custom_id@ == accept_button_id(handle.game),
                eligibility,
                now,
            ),
            final(self)@ == old(self)@.after_offer(
                *handle,
                user,
                custom_id@ == accept_button_id(handle.game),
                eligibility,
                now,
            ),
            final(self)@.wf(),
            final(self).has_room() == old(self).has_room(),
    {
        let decision = self.weigh(handle, user, custom_id, eligibility, now);
        match decision {
            AcceptDecision::Accepted => {
                let c = self.current(handle.game).unwrap();
                self.put(
                    handle.game,
                    Some(Challenge { accepted_by: Some(user), outcome: Outcome::Accepted, ..c }),
                );
            },
            _ => {},
        }
        decision
    }

    /// Ends the wait for an opponent: an invitation that nobody accepted
    /// expires. Returns whether it did.
    pub fn expire(&mut self, handle: &SessionHandle) -> (expired: bool)
        requires
            old(self)@.wf(),
        ensures
            expired == old(self)@.awaiting(*handle),
            final(self)@ == old(self)@.after_expire(*handle),
            final(self)@.wf(),
            final(self).has_room() == old(self).has_room(),
    {
        if self.is_awaiting(handle) {
            let c = self.current(handle.game).unwrap();
            self.put(handle.game, Some(Challenge { outcome: Outcome::Expired, ..c }));
            true
        } else {
            false
        }
    }

    /// Calls the challenge off, whether accepted yet or not. Returns whether
    /// there was an open or accepted challenge to call off.
    pub fn cancel(&mut self, handle: &SessionHandle) -> (cancelled: bool)
        requires
            old(self)@.wf(),
        ensures
            cancelled == (old(self)@.holds(*handle) && old(self)@.slot(
                handle.game,
            )->Some_0.active()),
            final(self)@ == old(self)@.after_cancel(*handle),
            final(self)@.wf(),
            final(self).has_room() == old(self).has_room(),
    {
        match self.current(handle.game) {
            Some(c) => {
                if c.id == handle.id && c.initiator == handle.initiator && (matches!(
                    c.outcome,
                    Outcome::Unresolved
                ) || matches!(c.outcome, Outcome::Accepted)) {
                    self.put(handle.game, Some(Challenge { outcome: Outcome::Cancelled, ..c }));
                    true
                } else {
                    false
                }
            },
            None => false,
        }
    }

    /// Gives the lease back, however the challenge went: the game is free
    /// for the next challenge. Returns the challenge as it ended, or `None`
    /// where the lease was given back before.
    pub fn close(&mut self, handle: &SessionHandle) -> (ended: Option<Challenge>)
        requires
            old(self)@.wf(),
        ensures
            ended == if old(self)@.holds(*handle) {
                old(self)@.slot(handle.game)
            } else {
                None
            },
            final(self)@ == old(self)@.after_close(*handle),
            final(self)@.wf(),
            final(self).has_room() == old(self).has_room(),
            old(self)@.holds(*handle) ==> !final(self)@.in_progress(handle.game),
    {
        if self.is_holding(handle) {
            let ended = self.current(handle.game);
            self.put(handle.game, None);
            ended
        } else {
            None
        }
    }
}

/// One call on the coordinator, as it appears in a history of calls.
pub enum Call {
    Open { game: GameType, initiator: u64, eligibility: Eligibility, now: i64 },
    Offer {
        handle: SessionHandle,
        user: u64,
        pressed_accept: bool,
        eligibility: Eligibility,
        now: i64,
    },
    Expire { handle: SessionHandle },
    Cancel { handle: SessionHandle },
    Close { handle: SessionHandle },
}

impl Sessions {
    /// The sessions after `call`.
    pub open spec fn after(self, call: Call) -> Sessions {
        match call {
            Call::Open { game, initiator, eligibility, now } => self.after_open(
                game,
                initiator,
                eligibility,
                now,
            ),
            Call::Offer { handle, user, pressed_accept, eligibility, now } => self.after_offer(
                handle,
                user,
                pressed_accept,
                eligibility,
                now,
            ),
            Call::Expire { handle } => self.after_expire(handle),
            Call::Cancel { handle } => self.after_cancel(handle),
            Call::Close { handle } => self.after_close(handle),
        }
    }

    /// The sessions after the `calls`, made in order on a new coordinator.
    pub open spec fn after_all(calls: Seq<Call>) -> Sessions
        decreases calls.len(),
    {
        if calls.len() == 0 {
            Sessions::initial()
        } else {
            Sessions::after_all(calls.drop_last()).after(calls.last())
        }
    }

    /// Whether `call` opens a challenge of `game` here, and is granted a lease.
    pub open spec fn grants(self, call: Call, game: GameType) -> bool {
        call matches Call::Open { game: g, initiator, eligibility, .. } && g == game
            && self.open_result(g, initiator, eligibility) is Ok
    }

    /// Whether `call` gives the lease of the challenge of `game` back here.
    pub open spec fn releases(self, call: Call, game: GameType) -> bool {
        call matches Call::Close { handle } && handle.game == game && self.holds(handle)
    }
}

/// The leases of `game` granted and not given back in the course of `calls`,
/// counted from the answers that the calls got.
pub open spec fn leases_out(calls: Seq<Call>, game: GameType) -> int
    decreases calls.len(),
{
    if calls.len() == 0 {
        0
    } else {
        let before = Sessions::after_all(calls.drop_last());
        leases_out(calls.drop_last(), game) + (if before.grants(calls.last(), game) {
            1int
        } else {
            0int
        }) - (if before.releases(calls.last(), game) {
            1int
        } else {
            0int
        })
    }
}

/// Every call keeps the sessions sound.
pub proof fn lemma_call_keeps_wf(s: Sessions, call: Call)
    requires
        s.wf(),
    ensures
        s.after(call).wf(),
{
}

/// A call changes the challenge of a game only if it concerns that game.
pub proof fn lemma_games_are_independent(s: Sessions, call: Call, game: GameType)
    requires
        match call {
            Call::Open { game: g, .. } => g != game,
            Call::Offer { handle, .. } => handle.game != game,
            Call::Expire { handle } => handle.game != game,
            Call::Cancel { handle } => handle.game != game,
            Call::Close { handle } => handle.game != game,
        },
    ensures
        s.after(call).slot(game) == s.slot(game),
{
}

/// Whatever calls are made, in whatever order, at most one lease per game
/// is out at any time, and the exclusivity flag of the game is set exactly
/// while one is out. It is clear before the first call, and clear again
/// whenever every lease granted has been given back.
pub proof fn lemma_one_session_at_a_time(calls: Seq<Call>, game: GameType)
    ensures
        Sessions::after_all(calls).wf(),
        0 <= leases_out(calls, game) <= 1,
        Sessions::after_all(calls).in_progress(game) <==> leases_out(calls, game) == 1,
        !Sessions::after_all(Seq::<Call>::empty()).in_progress(game),
    decreases calls.len(),
{
    if calls.len() > 0 {
        lemma_one_session_at_a_time(calls.drop_last(), game);
        lemma_call_keeps_wf(Sessions::after_all(calls.drop_last()), calls.last());
    }
}

/// At most one challenge per game is open or accepted at a time: a second
/// `open` is rejected for as long as there is one.
pub proof fn lemma_open_is_exclusive(
    s: Sessions,
    game: GameType,
    initiator: u64,
    eligibility: Eligibility,
    now: i64,
)
    requires
        s.in_progress(game),
    ensures
        s.open_result(game, initiator, eligibility) == Err::<SessionHandle, OpenError>(
            OpenError::AlreadyInProgress,
        ),
        s.after_open(game, initiator, eligibility, now) == s,
{
}

/// A lease stays good until it is given back: no call but the `close` of
/// that lease takes the challenge away from its holder.
pub proof fn lemma_lease_is_stable(s: Sessions, handle: SessionHandle, call: Call)
    requires
        s.wf(),
        s.holds(handle),
        call != (Call::Close { handle }),
    ensures
        s.after(call).holds(handle),
{
    match call {
        Call::Close { handle: other } => {
            if other.game == handle.game {
                assert(!s.holds(other));
            }
        },
        _ => {},
    }
}

/// A challenge that has left the unresolved state never returns to it, and
/// the acceptor, once recorded, stays the same.
pub proof fn lemma_outcome_is_final(s: Sessions, handle: SessionHandle, call: Call)
    requires
        s.wf(),
        s.holds(handle),
        s.after(call).holds(handle),
    ensures
        !(s.slot(handle.game)->Some_0.outcome is Unresolved) ==> !(s.after(call).slot(
            handle.game,
        )->Some_0.outcome is Unresolved),
        s.slot(handle.game)->Some_0.accepted_by is Some ==> s.after(call).slot(
            handle.game,
        )->Some_0.accepted_by == s.slot(handle.game)->Some_0.accepted_by,
{
}

/// Of the presses on an open invitation, the first in time by an eligible
/// user other than the initiator is accepted, and none after it. A press
/// at the deadline or later is not accepted, whoever makes it.
pub proof fn lemma_first_eligible_wins(
    s: Sessions,
    handle: SessionHandle,
    first: u64,
    second: u64,
    eligibility: Eligibility,
    now: i64,
    later: i64,
)
    requires
        s.wf(),
        s.awaiting(handle),
        first != handle.initiator,
    ensures
        now < s.slot(handle.game)->Some_0.deadline() ==> s.accept_decision(
            handle,
            first,
            true,
            Eligibility::Allowed,
            now,
        ) == AcceptDecision::Accepted && s.after_offer(
            handle,
            first,
            true,
            Eligibility::Allowed,
            now,
        ).slot(handle.game)->Some_0.accepted_by == Some(first) && !(s.after_offer(
            handle,
            first,
            true,
            Eligibility::Allowed,
            now,
        ).accept_decision(handle, second, true, eligibility, later) is Accepted),
        now >= s.slot(handle.game)->Some_0.deadline() ==> s.accept_decision(
            handle,
            first,
            true,
            eligibility,
            now,
        ) == AcceptDecision::TooLate && s.after_offer(handle, first, true, eligibility, now) == s,
{
}

/// Presses that are refused do not move the deadline: whatever is pressed,
/// and by whom, the invitation keeps the instant at which it was made.
pub proof fn lemma_presses_keep_the_deadline(
    s: Sessions,
    handle: SessionHandle,
    user: u64,
    pressed_accept: bool,
    eligibility: Eligibility,
    now: i64,
)
    requires
        s.wf(),
        s.holds(handle),
    ensures
        s.after_offer(handle, user, pressed_accept, eligibility, now).holds(handle),
        s.after_offer(handle, user, pressed_accept, eligibility, now).slot(
            handle.game,
        )->Some_0.deadline() == s.slot(handle.game)->Some_0.deadline(),
{
}

} // verus!
