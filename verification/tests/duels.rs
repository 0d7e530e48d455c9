use minigames::challenge::{AcceptDecision, Coordinator, GameType, OpenError, Outcome};
use minigames::cooldown::{CooldownLedger, CooldownRecord, OutcomeKind};
use minigames::challenge::{remaining_wait, wait_seconds};
use minigames::duel::{
    decide, duel, duelstats, find_opponent, pick_scores, record_duel_outcome, run_duel,
    update_users_win_loss, DuelEnd, DuelOutcome, DuelReport, MAX_SCORE,
};
use minigames::stats::StatsTable;

#[test]
fn the_higher_score_wins() {
    assert_eq!(decide(80, 42), DuelOutcome::ChallengerWins);
    assert_eq!(decide(42, 80), DuelOutcome::AccepterWins);
    assert_eq!(decide(50, 50), DuelOutcome::Draw);
    assert_eq!(decide(0, 0), DuelOutcome::Draw);
    assert_eq!(decide(100, 99), DuelOutcome::ChallengerWins);
    assert_eq!(decide(0, 1), DuelOutcome::AccepterWins);
}

#[test]
fn scores_are_drawn_from_zero_to_a_hundred() {
    assert_eq!(MAX_SCORE, 100);
    let mut seen_different = false;
    for _ in 0..500 {
        let (challenger, accepter) = pick_scores();
        assert!(challenger <= 100);
        assert!(accepter <= 100);
        if challenger != accepter {
            seen_different = true;
        }
    }
    assert!(seen_different);
}

#[test]
fn challenger_rolls_80_accepter_rolls_42() {
    let mut stats = StatsTable::new();
    let mut cooldowns = CooldownLedger::new();
    let mut history = CooldownLedger::new();
    // The accepter comes with two wins in a row, the challenger with one.
    update_users_win_loss(&mut stats, &mut history, 2, 9, 50);
    update_users_win_loss(&mut stats, &mut history, 2, 9, 50);
    update_users_win_loss(&mut stats, &mut history, 1, 9, 50);
    let before_challenger = stats.get_duel_stats(1).unwrap();
    let before_accepter = stats.get_duel_stats(2).unwrap();
    let report = record_duel_outcome(&mut stats, &mut cooldowns, 1, 2, 80, 42, 7_000);
    assert_eq!(
        report,
        DuelReport {
            outcome: DuelOutcome::ChallengerWins,
            winner: Some(1),
            loser: Some(2),
            silenced_until: None,
        }
    );
    let challenger = stats.get_duel_stats(1).unwrap();
    let accepter = stats.get_duel_stats(2).unwrap();
    assert_eq!(challenger.win_streak, before_challenger.win_streak + 1);
    assert_eq!(challenger.wins, before_challenger.wins + 1);
    assert_eq!(challenger.loss_streak, 0);
    assert_eq!(accepter.loss_streak, before_accepter.loss_streak + 1);
    assert_eq!(accepter.losses, before_accepter.losses + 1);
    assert_eq!(accepter.win_streak, 0);
    assert_eq!(accepter.win_streak_max, 2);
    assert_eq!(
        cooldowns.peek(2),
        Some(CooldownRecord { last_loss: 7_000, last_hatch: 0, consecutive_fails: 0 })
    );
    assert_eq!(cooldowns.peek(1), None);
}

#[test]
fn the_accepter_can_win() {
    let mut stats = StatsTable::new();
    let mut cooldowns = CooldownLedger::new();
    let report = record_duel_outcome(&mut stats, &mut cooldowns, 1, 2, 3, 4, 7_000);
    assert_eq!(report.outcome, DuelOutcome::AccepterWins);
    assert_eq!(report.winner, Some(2));
    assert_eq!(report.loser, Some(1));
    assert_eq!(stats.get_duel_stats(2).unwrap().win_streak, 1);
    assert_eq!(stats.get_duel_stats(1).unwrap().loss_streak, 1);
    assert_eq!(cooldowns.peek(1).unwrap().last_loss, 7_000);
    assert_eq!(cooldowns.peek(2), None);
}

#[test]
fn a_draw_silences_both_and_resets_both() {
    let mut stats = StatsTable::new();
    let mut cooldowns = CooldownLedger::new();
    let mut history = CooldownLedger::new();
    update_users_win_loss(&mut stats, &mut history, 1, 2, 50);
    let report = record_duel_outcome(&mut stats, &mut cooldowns, 1, 2, 55, 55, 7_000);
    assert_eq!(
        report,
        DuelReport {
            outcome: DuelOutcome::Draw,
            winner: None,
            loser: None,
            silenced_until: Some(7_600),
        }
    );
    for user in [1, 2] {
        let row = stats.get_duel_stats(user).unwrap();
        assert_eq!(row.draws, 1);
        assert_eq!(row.win_streak, 0);
        assert_eq!(row.loss_streak, 0);
    }
    assert_eq!(cooldowns.peek(1), None);
    assert_eq!(cooldowns.peek(2), None);
}

#[test]
fn a_duel_is_opened_once() {
    let mut coordinator = Coordinator::new();
    let mut cooldowns = CooldownLedger::new();
    let handle = duel(&mut coordinator, &mut cooldowns, 1, 101_000).unwrap();
    assert_eq!(handle.initiator, 1);
    assert_eq!(handle.game, GameType::Duel);
    assert_eq!(cooldowns.peek(1), Some(CooldownRecord::new()));
    assert_eq!(
        duel(&mut coordinator, &mut cooldowns, 2, 101_001),
        Err(OpenError::AlreadyInProgress)
    );
    // Turned away for being busy, the second challenger is not even entered.
    assert_eq!(cooldowns.peek(2), None);
}

#[test]
fn a_recent_loser_cannot_challenge() {
    let mut coordinator = Coordinator::new();
    let mut cooldowns = CooldownLedger::new();
    cooldowns.record_outcome(1, OutcomeKind::DuelLost, 1_000);
    assert_eq!(
        duel(&mut coordinator, &mut cooldowns, 1, 4_599),
        Err(OpenError::CooldownActive { retry_at: 4_600 })
    );
    assert!(!coordinator.in_progress(GameType::Duel));
    assert!(duel(&mut coordinator, &mut cooldowns, 1, 4_600).is_ok());
}

#[test]
fn the_opponent_is_the_first_eligible_taker() {
    let mut coordinator = Coordinator::new();
    let mut cooldowns = CooldownLedger::new();
    cooldowns.record_outcome(3, OutcomeKind::DuelLost, 100_900);
    let handle = duel(&mut coordinator, &mut cooldowns, 1, 101_000).unwrap();
    assert_eq!(
        find_opponent(&mut coordinator, &mut cooldowns, &handle, 1, "duel-btn", 101_005),
        AcceptDecision::RejectedSelf
    );
    assert_eq!(
        find_opponent(&mut coordinator, &mut cooldowns, &handle, 3, "duel-btn", 101_006),
        AcceptDecision::RejectedCooldown { retry_at: 104_500 }
    );
    assert_eq!(
        find_opponent(&mut coordinator, &mut cooldowns, &handle, 4, "rps-btn", 101_007),
        AcceptDecision::Ignored
    );
    assert_eq!(cooldowns.peek(4), None);
    assert_eq!(coordinator.current(GameType::Duel).unwrap().outcome, Outcome::Unresolved);
    assert_eq!(
        find_opponent(&mut coordinator, &mut cooldowns, &handle, 4, "duel-btn", 101_008),
        AcceptDecision::Accepted
    );
    assert_eq!(cooldowns.peek(4), Some(CooldownRecord::new()));
    assert_eq!(coordinator.current(GameType::Duel).unwrap().accepted_by, Some(4));
    assert_eq!(
        find_opponent(&mut coordinator, &mut cooldowns, &handle, 5, "duel-btn", 101_009),
        AcceptDecision::BeatenToIt
    );
    assert_eq!(cooldowns.peek(5), None);
}

#[test]
fn a_duel_without_opponent_leaves_no_trace() {
    let mut coordinator = Coordinator::new();
    let mut cooldowns = CooldownLedger::new();
    let mut stats = StatsTable::new();
    let handle = duel(&mut coordinator, &mut cooldowns, 1, 101_000).unwrap();
    assert!(coordinator.expire(&handle));
    let challenge = coordinator.close(&handle).unwrap();
    let end = run_duel(&mut stats, &mut cooldowns, &challenge, 80, 42, 101_300);
    assert_eq!(end, DuelEnd::OpponentNotFound);
    assert_eq!(stats.get_duel_stats(1), None);
    assert_eq!(cooldowns.peek(1), Some(CooldownRecord::new()));
    assert!(!coordinator.in_progress(GameType::Duel));
}

#[test]
fn an_accepted_duel_is_fought_and_recorded() {
    let mut coordinator = Coordinator::new();
    let mut cooldowns = CooldownLedger::new();
    let mut stats = StatsTable::new();
    let handle = duel(&mut coordinator, &mut cooldowns, 1, 101_000).unwrap();
    find_opponent(&mut coordinator, &mut cooldowns, &handle, 2, "duel-btn", 101_010);
    let challenge = coordinator.current(GameType::Duel).unwrap();
    let end = run_duel(&mut stats, &mut cooldowns, &challenge, 10, 90, 101_020);
    assert_eq!(
        end,
        DuelEnd::Decided(DuelReport {
            outcome: DuelOutcome::AccepterWins,
            winner: Some(2),
            loser: Some(1),
            silenced_until: None,
        })
    );
    coordinator.close(&handle);
    assert!(!coordinator.in_progress(GameType::Duel));
    // The loser has to sit the cooldown out before the next duel.
    assert_eq!(
        duel(&mut coordinator, &mut cooldowns, 1, 101_021),
        Err(OpenError::CooldownActive { retry_at: 104_620 })
    );
    assert!(duel(&mut coordinator, &mut cooldowns, 2, 101_021).is_ok());
}

#[test]
fn the_scoresheet_of_a_duelist() {
    let mut stats = StatsTable::new();
    let mut history = CooldownLedger::new();
    assert!(duelstats(&stats, 1, "Rex").is_none());
    update_users_win_loss(&mut stats, &mut history, 1, 2, 50);
    update_users_win_loss(&mut stats, &mut history, 1, 2, 50);
    stats.update_users_drawn(1, 2);
    update_users_win_loss(&mut stats, &mut history, 2, 1, 50);
    let sheet = duelstats(&stats, 1, "Rex").unwrap();
    assert_eq!(sheet.title, "Rex's scoresheet: 2-1-1");
    assert_eq!(
        sheet.description,
        "Current streak **1 losses**\nBest streak: **2 wins**\nWorst streak: **1 losses**"
    );
    let sheet = duelstats(&stats, 2, "Tri").unwrap();
    assert_eq!(sheet.title, "Tri's scoresheet: 1-2-1");
    assert_eq!(
        sheet.description,
        "Current streak **1 wins**\nBest streak: **1 wins**\nWorst streak: **2 losses**"
    );
    assert!(duelstats(&stats, 3, "Nobody").is_none());
}

#[test]
fn a_win_and_a_loss_are_recorded_together() {
    let mut stats = StatsTable::new();
    let mut cooldowns = CooldownLedger::new();
    cooldowns.record_outcome(1, OutcomeKind::DuelLost, 10);
    update_users_win_loss(&mut stats, &mut cooldowns, 1, 2, 7_000);
    assert_eq!(stats.get_duel_stats(1).unwrap().wins, 1);
    assert_eq!(stats.get_duel_stats(2).unwrap().losses, 1);
    assert_eq!(cooldowns.peek(2).unwrap().last_loss, 7_000);
    assert_eq!(cooldowns.peek(1).unwrap().last_loss, 10);
}

#[test]
fn presses_do_not_extend_the_wait() {
    let mut coordinator = Coordinator::new();
    let mut cooldowns = CooldownLedger::new();
    cooldowns.record_outcome(3, OutcomeKind::DuelLost, 100_000);
    let handle = duel(&mut coordinator, &mut cooldowns, 1, 101_000).unwrap();
    let challenge = coordinator.current(GameType::Duel).unwrap();
    assert_eq!(wait_seconds(GameType::Duel), 300);
    assert_eq!(remaining_wait(&challenge, 101_000), 300);
    // Refused presses shortly before the deadline leave the deadline where it was.
    assert_eq!(
        find_opponent(&mut coordinator, &mut cooldowns, &handle, 1, "duel-btn", 101_290),
        AcceptDecision::RejectedSelf
    );
    assert_eq!(
        find_opponent(&mut coordinator, &mut cooldowns, &handle, 3, "duel-btn", 101_295),
        AcceptDecision::RejectedCooldown { retry_at: 103_600 }
    );
    let challenge = coordinator.current(GameType::Duel).unwrap();
    assert_eq!(remaining_wait(&challenge, 101_295), 5);
    assert_eq!(remaining_wait(&challenge, 101_299), 1);
    assert_eq!(remaining_wait(&challenge, 101_300), 0);
    assert_eq!(remaining_wait(&challenge, 1_000_000), 0);
    // At the deadline and after it, an eligible taker is too late.
    assert_eq!(
        find_opponent(&mut coordinator, &mut cooldowns, &handle, 2, "duel-btn", 101_300),
        AcceptDecision::TooLate
    );
    assert_eq!(
        find_opponent(&mut coordinator, &mut cooldowns, &handle, 2, "duel-btn", 1_000_000),
        AcceptDecision::TooLate
    );
    assert_eq!(cooldowns.peek(2), None);
    assert_eq!(coordinator.current(GameType::Duel).unwrap().outcome, Outcome::Unresolved);
    // One second before it, the taker is accepted.
    assert_eq!(
        find_opponent(&mut coordinator, &mut cooldowns, &handle, 2, "duel-btn", 101_299),
        AcceptDecision::Accepted
    );
}

#[test]
fn the_wait_is_never_longer_than_in_full() {
    let mut coordinator = Coordinator::new();
    let mut cooldowns = CooldownLedger::new();
    duel(&mut coordinator, &mut cooldowns, 1, 101_000).unwrap();
    let challenge = coordinator.current(GameType::Duel).unwrap();
    // A clock that runs backwards does not make the wait longer.
    assert_eq!(remaining_wait(&challenge, 100_000), 300);
    assert_eq!(remaining_wait(&challenge, i64::MIN), 300);
    assert_eq!(remaining_wait(&challenge, i64::MAX), 0);
}
