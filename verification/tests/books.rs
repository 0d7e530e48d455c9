use minigames::cooldown::{CooldownRecord, MAX_FAILED_HATCHES, OutcomeKind};
use minigames::dinos::{
    InsertError, NameConflict, Transaction, TransactionKind, COLLECTION_LIMIT,
};
use minigames::duel::DuelOutcome;
use minigames::generation::{
    draw_parts, first_new, generate_dino, ExhaustedAttempts, MAX_GENERATION_ATTEMPTS,
};
use minigames::parts::{setup_dinos, DinoParts, Fragments};
use minigames::recorder::{
    join_names, ordinal, GiftError, HatchRuling, HatchStep, Recorder, RenameError,
};

fn parts(body: &str, mouth: &str, eyes: &str, name: &str) -> DinoParts {
    DinoParts {
        body: format!("frags/{}_b.png", body),
        mouth: format!("frags/{}_m.png", mouth),
        eyes: format!("frags/{}_e.png", eyes),
        name: name.to_string(),
    }
}

fn single_choice() -> Fragments {
    let listing = vec![
        "frags/rex_b.png".to_string(),
        "frags/grin_m.png".to_string(),
        "frags/sleepy_e.png".to_string(),
    ];
    setup_dinos(&listing).unwrap()
}

#[test]
fn a_creature_is_entered_with_its_hatch() {
    let mut recorder = Recorder::new();
    recorder.cooldowns.record_outcome(7, OutcomeKind::HatchFailed, 900);
    recorder.cooldowns.record_outcome(7, OutcomeKind::DuelLost, 950);
    let rex = parts("rex", "grin", "sleepy", "rexrinepy");
    assert!(!recorder.dinos.are_parts_duplicate(&rex));
    let id = recorder.insert_dino(7, &rex, "./assets/dino/complete/rexrinepy.png", 1_000);
    assert_eq!(id, Ok(1));
    assert_eq!(recorder.dinos.len(), 1);
    assert!(recorder.dinos.are_parts_duplicate(&rex));
    assert!(recorder.dinos.has_parts("rex_b.png", "grin_m.png", "sleepy_e.png"));
    assert!(!recorder.dinos.has_parts("rex_b.png", "grin_m.png", "wink_e.png"));
    let record = recorder.dinos.get(1).unwrap();
    assert_eq!(record.id, 1);
    assert_eq!(record.owner_id, 7);
    assert_eq!(record.name, "rexrinepy");
    assert_eq!(record.filename, "rexrinepy.png");
    assert_eq!(record.created_at, 1_000);
    assert_eq!(record.body, "rex_b.png");
    assert_eq!(record.mouth, "grin_m.png");
    assert_eq!(record.eyes, "sleepy_e.png");
    assert_eq!(recorder.dinos.ledger_len(), 1);
    assert_eq!(
        recorder.dinos.ledger_entry(0),
        Some(Transaction {
            dino_id: 1,
            user_id: 7,
            gifter_id: None,
            kind: TransactionKind::Hatch,
            created_at: 1_000,
        })
    );
    assert_eq!(recorder.dinos.ledger_entry(1), None);
    // With the creature the owner's failures are forgotten and their cooldown starts.
    assert_eq!(
        recorder.cooldowns.peek(7),
        Some(CooldownRecord { last_loss: 950, last_hatch: 1_000, consecutive_fails: 0 })
    );
    assert!(recorder.dinos.get(0).is_none());
    assert!(recorder.dinos.get(2).is_none());
    assert!(recorder.dinos.get(-1).is_none());
}

#[test]
fn the_same_parts_are_never_entered_twice() {
    let mut recorder = Recorder::new();
    let rex = parts("rex", "grin", "sleepy", "rexrinepy");
    assert_eq!(recorder.insert_dino(7, &rex, "rexrinepy.png", 1_000), Ok(1));
    // The same parts under another name, from another directory, for another user.
    let twin = DinoParts {
        body: "elsewhere/rex_b.png".to_string(),
        mouth: "grin_m.png".to_string(),
        eyes: "/abs/sleepy_e.png".to_string(),
        name: "twin".to_string(),
    };
    assert_eq!(
        recorder.insert_dino(8, &twin, "twin.png", 1_001),
        Err(InsertError::DuplicateParts)
    );
    assert_eq!(recorder.dinos.len(), 1);
    assert_eq!(recorder.dinos.ledger_len(), 1);
    // One part different makes another creature.
    let cousin = parts("rex", "grin", "wink", "rexrinink");
    assert_eq!(recorder.insert_dino(8, &cousin, "rexrinink.png", 1_002), Ok(2));
}

#[test]
fn names_are_unique_even_where_parts_differ() {
    let mut recorder = Recorder::new();
    let one = parts("rex", "grin", "sleepy", "rexrinepy");
    // Different parts can spell the same name.
    let other = parts("rexy", "agrin", "asleepy", "rexrinepy");
    assert_eq!(recorder.insert_dino(7, &one, "a.png", 1_000), Ok(1));
    assert_eq!(recorder.insert_dino(7, &other, "b.png", 1_001), Err(InsertError::NameConflict));
    assert_eq!(recorder.dinos.len(), 1);
    assert_eq!(recorder.dinos.ledger_len(), 1);
}

#[test]
fn renaming_changes_one_name() {
    let mut recorder = Recorder::new();
    recorder.insert_dino(7, &parts("rex", "grin", "sleepy", "Rex"), "rex.png", 1_000).unwrap();
    recorder.insert_dino(8, &parts("trike", "grin", "sleepy", "Trike"), "trike.png", 1_001).unwrap();
    assert_eq!(recorder.dinos.update_dino_name(1, "Trike"), Err(NameConflict));
    assert_eq!(recorder.dinos.get(1).unwrap().name, "Rex");
    assert_eq!(recorder.dinos.update_dino_name(1, "Rexy"), Ok(()));
    assert_eq!(recorder.dinos.get(1).unwrap().name, "Rexy");
    assert_eq!(recorder.dinos.get(2).unwrap().name, "Trike");
    assert_eq!(recorder.dinos.ledger_len(), 2);
    // The own name is not in the way.
    assert_eq!(recorder.dinos.update_dino_name(1, "Rexy"), Ok(()));
    // An unknown number changes nothing, whatever the name.
    assert_eq!(recorder.dinos.update_dino_name(9, "Trike"), Ok(()));
    assert_eq!(recorder.dinos.update_dino_name(0, "Zero"), Ok(()));
    assert!(recorder.dinos.get_dino_record("Zero").is_none());
    assert!(recorder.dinos.get_dino_record("Rex").is_none());
    assert_eq!(recorder.dinos.get_dino_record("Rexy").unwrap().id, 1);
}

#[test]
fn a_gift_changes_the_owner_and_nothing_else() {
    let mut recorder = Recorder::new();
    recorder.insert_dino(7, &parts("rex", "grin", "sleepy", "Rex"), "rex.png", 1_000).unwrap();
    recorder.insert_dino(7, &parts("trike", "grin", "sleepy", "Trike"), "trike.png", 1_001).unwrap();
    assert!(recorder.gift_dino(1, 7, 8, 2_000));
    let rex = recorder.dinos.get(1).unwrap();
    assert_eq!(rex.owner_id, 8);
    assert_eq!(rex.id, 1);
    assert_eq!(rex.name, "Rex");
    assert_eq!(rex.filename, "rex.png");
    assert_eq!(rex.created_at, 1_000);
    assert_eq!((rex.body.as_str(), rex.mouth.as_str(), rex.eyes.as_str()),
        ("rex_b.png", "grin_m.png", "sleepy_e.png"));
    assert_eq!(recorder.dinos.get(2).unwrap().owner_id, 7);
    assert_eq!(recorder.dinos.ledger_len(), 3);
    assert_eq!(
        recorder.dinos.ledger_entry(2),
        Some(Transaction {
            dino_id: 1,
            user_id: 8,
            gifter_id: Some(7),
            kind: TransactionKind::Gift,
            created_at: 2_000,
        })
    );
    // The recipient has a record from now on.
    assert_eq!(recorder.cooldowns.peek(8), Some(CooldownRecord::new()));
    assert_eq!(recorder.cooldowns.peek(9), None);
    assert!(!recorder.gift_dino(3, 7, 9, 2_001));
    assert_eq!(recorder.dinos.ledger_len(), 3);
    assert_eq!(recorder.cooldowns.peek(9), None);
}

#[test]
fn a_collection_counts_creatures_and_entries() {
    let mut recorder = Recorder::new();
    recorder.insert_dino(7, &parts("a", "grin", "sleepy", "A"), "a.png", 1).unwrap();
    recorder.insert_dino(8, &parts("b", "grin", "sleepy", "B"), "b.png", 2).unwrap();
    recorder.insert_dino(7, &parts("c", "grin", "sleepy", "C"), "c.png", 3).unwrap();
    recorder.gift_dino(2, 8, 7, 4);
    recorder.gift_dino(1, 7, 8, 5);
    let mine = recorder.dinos.fetch_collection(7);
    assert_eq!(mine.dino_count, 2);
    assert_eq!(mine.dinos.iter().map(|d| d.name.as_str()).collect::<Vec<_>>(), vec!["B", "C"]);
    // B: hatch and gift. C: hatch.
    assert_eq!(mine.transaction_count, 3);
    let theirs = recorder.dinos.fetch_collection(8);
    assert_eq!(theirs.dino_count, 1);
    assert_eq!(theirs.transaction_count, 2);
    let nobody = recorder.dinos.fetch_collection(9);
    assert_eq!(nobody.dino_count, 0);
    assert_eq!(nobody.transaction_count, 0);
    assert!(nobody.dinos.is_empty());
}

#[test]
fn a_collection_shows_the_first_twenty_five() {
    assert_eq!(COLLECTION_LIMIT, 25);
    let mut recorder = Recorder::new();
    for i in 0..30 {
        let trio = parts(&format!("body{}", i), "grin", "sleepy", &format!("D{}", i));
        recorder.insert_dino(7, &trio, &format!("D{}.png", i), 1_000 + i).unwrap();
    }
    let report = recorder.collection(7).unwrap();
    assert_eq!(report.dino_count, 30);
    assert_eq!(report.transaction_count, 30);
    assert_eq!(report.dinos.len(), 25);
    assert_eq!(report.dinos[0].name, "D0");
    assert_eq!(report.dinos[24].name, "D24");
    let names: Vec<String> = (0..25).map(|i| format!("D{}", i)).collect();
    assert_eq!(report.description, format!("{} and 5 others!", names.join(", ")));
    assert_eq!(report.footer, "30 Dinos. Together they are worth: 30 Bucks");
}

#[test]
fn a_small_collection_in_words() {
    let mut recorder = Recorder::new();
    assert!(recorder.collection(7).is_none());
    assert_eq!(recorder.cooldowns.peek(7), Some(CooldownRecord::new()));
    recorder.insert_dino(7, &parts("a", "grin", "sleepy", "Ann"), "ann.png", 1).unwrap();
    let report = recorder.collection(7).unwrap();
    assert_eq!(report.description, "Ann and 0 others!");
    assert_eq!(report.footer, "1 Dinos. Together they are worth: 1 Bucks");
    recorder.insert_dino(7, &parts("b", "grin", "sleepy", "Bob"), "bob.png", 20).unwrap();
    recorder.gift(7, "Ann", 8, 30).unwrap();
    recorder.gift(8, "Ann", 7, 40).unwrap();
    let report = recorder.collection(7).unwrap();
    assert_eq!(report.description, "Ann, Bob and 0 others!");
    assert_eq!(report.footer, "2 Dinos. Together they are worth: 4 Bucks");
    assert_eq!(join_names(&report.dinos), "Ann, Bob");
    assert_eq!(join_names(&Vec::new()), "");
    assert!(recorder.collection(8).is_none());
}

#[test]
fn generation_resets_the_failures_and_starts_the_cooldown() {
    let mut recorder = Recorder::new();
    recorder.cooldowns.record_outcome(7, OutcomeKind::HatchFailed, 100);
    recorder.cooldowns.record_outcome(7, OutcomeKind::HatchFailed, 200);
    let rex = parts("rex", "grin", "sleepy", "Rex");
    assert_eq!(recorder.insert_dino(7, &rex, "out/Rex.png", 1_000), Ok(1));
    assert_eq!(
        recorder.cooldowns.peek(7),
        Some(CooldownRecord { last_loss: 0, last_hatch: 1_000, consecutive_fails: 0 })
    );
    assert_eq!(recorder.view("Rex").unwrap().filename, "Rex.png");
}

#[test]
fn a_refused_generation_changes_nothing() {
    let mut recorder = Recorder::new();
    let rex = parts("rex", "grin", "sleepy", "Rex");
    recorder.insert_dino(7, &rex, "Rex.png", 1_000).unwrap();
    recorder.cooldowns.record_outcome(8, OutcomeKind::HatchFailed, 1_500);
    let before = recorder.cooldowns.peek(8);
    let again = DinoParts { name: "Other".to_string(), ..rex.clone() };
    assert_eq!(
        recorder.insert_dino(8, &again, "Other.png", 2_000),
        Err(InsertError::DuplicateParts)
    );
    let same_name = parts("trike", "grin", "sleepy", "Rex");
    assert_eq!(
        recorder.insert_dino(8, &same_name, "Rex2.png", 2_000),
        Err(InsertError::NameConflict)
    );
    assert_eq!(recorder.dinos.len(), 1);
    assert_eq!(recorder.dinos.ledger_len(), 1);
    assert_eq!(recorder.cooldowns.peek(8), before);
}

#[test]
fn rename_needs_the_owner_and_a_free_name() {
    let mut recorder = Recorder::new();
    recorder.insert_dino(7, &parts("rex", "grin", "sleepy", "Rex"), "r.png", 1).unwrap();
    recorder.insert_dino(8, &parts("trike", "grin", "sleepy", "Trike"), "t.png", 2).unwrap();
    assert_eq!(recorder.rename(7, "Nobody", "Rexy"), Err(RenameError::NotFound));
    assert_eq!(recorder.rename(8, "Rex", "Rexy"), Err(RenameError::NotOwner));
    assert_eq!(recorder.rename(7, "Rex", "Trike"), Err(RenameError::NameConflict));
    // Not found comes before not owner, not owner before the conflict.
    assert_eq!(recorder.rename(8, "Rex", "Trike"), Err(RenameError::NotOwner));
    assert_eq!(recorder.view("Rex").unwrap().id, 1);
    assert_eq!(recorder.view("Trike").unwrap().id, 2);
    assert_eq!(recorder.rename(7, "Rex", "Rexy"), Ok(()));
    assert!(recorder.view("Rex").is_none());
    let renamed = recorder.view("Rexy").unwrap();
    assert_eq!((renamed.id, renamed.owner_id), (1, 7));
    assert_eq!(recorder.view("Trike").unwrap().owner_id, 8);
    assert_eq!(recorder.dinos.ledger_len(), 2);
    assert_eq!(recorder.rename(7, "Rexy", "Rexy"), Ok(()));
    assert_eq!(recorder.rename(7, "Rexy", "Rex"), Ok(()));
}

#[test]
fn gift_needs_the_owner() {
    let mut recorder = Recorder::new();
    recorder.insert_dino(7, &parts("rex", "grin", "sleepy", "Rex"), "r.png", 1).unwrap();
    assert_eq!(recorder.gift(7, "Nobody", 8, 50), Err(GiftError::NotFound));
    assert_eq!(recorder.gift(8, "Rex", 9, 50), Err(GiftError::NotOwner));
    assert_eq!(recorder.dinos.ledger_len(), 1);
    assert_eq!(recorder.cooldowns.peek(8), None);
    assert_eq!(recorder.cooldowns.peek(9), None);
    assert_eq!(recorder.gift(7, "Rex", 8, 50), Ok(()));
    let rex = recorder.view("Rex").unwrap();
    assert_eq!((rex.id, rex.owner_id, rex.created_at), (1, 8, 1));
    assert_eq!(recorder.dinos.ledger_len(), 2);
    let entry = recorder.dinos.ledger_entry(1).unwrap();
    assert_eq!(entry.kind, TransactionKind::Gift);
    assert_eq!((entry.dino_id, entry.user_id, entry.gifter_id), (1, 8, Some(7)));
    assert_eq!(recorder.cooldowns.peek(8), Some(CooldownRecord::new()));
    // The former owner has nothing to give any more.
    assert_eq!(recorder.gift(7, "Rex", 9, 60), Err(GiftError::NotOwner));
    assert_eq!(recorder.gift(8, "Rex", 7, 60), Ok(()));
    assert_eq!(recorder.view("Rex").unwrap().owner_id, 7);
}

#[test]
fn the_hatch_is_ruled_by_cooldown_and_roll() {
    let mut recorder = Recorder::new();
    let now = 1_700_000_000;
    assert_eq!(
        recorder.hatch_ruling(7, now, 3),
        HatchRuling::Failed { attempt: 1, try_again_at: 1_700_006_400 }
    );
    assert_eq!(
        recorder.cooldowns.peek(7),
        Some(CooldownRecord { last_loss: 0, last_hatch: now, consecutive_fails: 1 })
    );
    assert_eq!(
        recorder.hatch_ruling(7, now + 9, 4),
        HatchRuling::OnCooldown { retry_at: now + 10 }
    );
    assert_eq!(recorder.cooldowns.peek(7).unwrap().consecutive_fails, 1);
    assert_eq!(
        recorder.hatch_ruling(7, now + 10, 2),
        HatchRuling::Failed { attempt: 2, try_again_at: 1_700_006_400 }
    );
    assert_eq!(
        recorder.hatch_ruling(7, now + 20, 1),
        HatchRuling::Failed { attempt: 3, try_again_at: 1_700_006_400 }
    );
    assert_eq!(recorder.cooldowns.peek(7).unwrap().consecutive_fails, MAX_FAILED_HATCHES);
    // From here on every face of the die lets the hatch proceed.
    assert_eq!(recorder.hatch_ruling(7, now + 30, 1), HatchRuling::Proceed);
    assert_eq!(recorder.hatch_ruling(7, now + 30, 4), HatchRuling::Proceed);
    assert_eq!(recorder.cooldowns.peek(7).unwrap().consecutive_fails, MAX_FAILED_HATCHES);
    assert_eq!(recorder.cooldowns.peek(7).unwrap().last_hatch, now + 20);
    assert_eq!(recorder.dinos.len(), 0);
}

#[test]
fn the_highest_face_always_hatches() {
    let mut recorder = Recorder::new();
    assert_eq!(recorder.hatch_ruling(7, 1_000, 4), HatchRuling::Proceed);
    assert_eq!(recorder.cooldowns.peek(7), Some(CooldownRecord::new()));
}

#[test]
fn failed_attempts_are_told_by_their_ordinal() {
    assert_eq!(ordinal(1), "1st");
    assert_eq!(ordinal(2), "2nd");
    assert_eq!(ordinal(3), "3rd");
}

#[test]
fn a_hatch_after_three_failures_cannot_fail() {
    let fragments = single_choice();
    for _ in 0..50 {
        let mut recorder = Recorder::new();
        for t in [10, 20, 30] {
            recorder.cooldowns.record_outcome(7, OutcomeKind::HatchFailed, t);
        }
        match recorder.hatch(&fragments, 7, 1_000) {
            HatchStep::Ready(parts) => assert_eq!(parts.name, "rexrinepy"),
            other => panic!("the hatch should have proceeded: {:?}", other),
        }
    }
}

#[test]
fn a_hatch_under_cooldown_is_turned_away_whatever_the_roll() {
    let fragments = single_choice();
    let mut recorder = Recorder::new();
    recorder.cooldowns.record_outcome(7, OutcomeKind::HatchSucceeded, 1_000);
    for _ in 0..50 {
        match recorder.hatch(&fragments, 7, 1_009) {
            HatchStep::OnCooldown { retry_at } => assert_eq!(retry_at, 1_010),
            other => panic!("the hatch should have been turned away: {:?}", other),
        }
    }
    assert_eq!(
        recorder.cooldowns.peek(7),
        Some(CooldownRecord { last_loss: 0, last_hatch: 1_000, consecutive_fails: 0 })
    );
}

#[test]
fn a_hatch_fails_or_proceeds() {
    let fragments = single_choice();
    let mut failed = 0;
    let mut ready = 0;
    for _ in 0..200 {
        let mut recorder = Recorder::new();
        match recorder.hatch(&fragments, 7, 1_700_000_000) {
            HatchStep::Failed { attempt, try_again_at } => {
                assert_eq!(attempt, 1);
                assert_eq!(try_again_at, 1_700_006_400);
                assert_eq!(recorder.cooldowns.peek(7).unwrap().consecutive_fails, 1);
                failed += 1;
            }
            HatchStep::Ready(parts) => {
                assert_eq!(parts.body, "frags/rex_b.png");
                assert_eq!(recorder.cooldowns.peek(7), Some(CooldownRecord::new()));
                ready += 1;
            }
            other => panic!("unexpected: {:?}", other),
        }
    }
    assert_eq!(failed + ready, 200);
    assert!(failed > 0);
    assert!(ready > 0);
}

#[test]
fn generation_gives_up_when_everything_exists() {
    assert_eq!(MAX_GENERATION_ATTEMPTS, 20);
    let fragments = single_choice();
    let mut recorder = Recorder::new();
    let first = generate_dino(&recorder.dinos, &fragments).unwrap();
    assert_eq!(first.name, "rexrinepy");
    recorder.insert_dino(7, &first, "rexrinepy.png", 1_000).unwrap();
    assert_eq!(generate_dino(&recorder.dinos, &fragments).err(), Some(ExhaustedAttempts));
    let mut recorder = Recorder::new();
    recorder.insert_dino(7, &first, "rexrinepy.png", 1_000).unwrap();
    for t in [10, 20, 30] {
        recorder.cooldowns.record_outcome(8, OutcomeKind::HatchFailed, t);
    }
    let before = recorder.cooldowns.peek(8);
    assert!(matches!(recorder.hatch(&fragments, 8, 2_000), HatchStep::Exhausted));
    assert_eq!(recorder.cooldowns.peek(8), before);
    assert_eq!(recorder.dinos.len(), 1);
}

#[test]
fn generation_finds_the_creature_that_is_left() {
    let listing = vec![
        "frags/rex_b.png".to_string(),
        "frags/trike_b.png".to_string(),
        "frags/grin_m.png".to_string(),
        "frags/sleepy_e.png".to_string(),
    ];
    let fragments = setup_dinos(&listing).unwrap();
    let mut found_new = 0;
    for _ in 0..20 {
        let mut recorder = Recorder::new();
        recorder.insert_dino(7, &parts("rex", "grin", "sleepy", "rexrinepy"), "x.png", 1).unwrap();
        if let Ok(found) = generate_dino(&recorder.dinos, &fragments) {
            assert_eq!(found.body, "frags/trike_b.png");
            assert_eq!(found.name, "tririnepy");
            assert!(!recorder.dinos.are_parts_duplicate(&found));
            found_new += 1;
        }
    }
    assert!(found_new > 0);
}

#[test]
fn the_recorder_counts_duels() {
    let mut recorder = Recorder::new();
    let report = recorder.record_duel_outcome(1, 2, 80, 42, 5_000);
    assert_eq!(report.outcome, DuelOutcome::ChallengerWins);
    assert_eq!(recorder.stats.get_duel_stats(1).unwrap().win_streak, 1);
    assert_eq!(recorder.stats.get_duel_stats(2).unwrap().loss_streak, 1);
    assert_eq!(recorder.cooldowns.peek(2).unwrap().last_loss, 5_000);
    assert_eq!(recorder.dinos.len(), 0);
}

#[test]
fn the_first_new_draw_is_taken() {
    let mut recorder = Recorder::new();
    recorder.insert_dino(7, &parts("a", "grin", "sleepy", "A"), "a.png", 1).unwrap();
    recorder.insert_dino(7, &parts("b", "grin", "sleepy", "B"), "b.png", 2).unwrap();
    let held_a = parts("a", "grin", "sleepy", "x");
    let held_b = parts("b", "grin", "sleepy", "y");
    let new_c = parts("c", "grin", "sleepy", "z");
    let new_d = parts("d", "grin", "sleepy", "w");
    let draws = vec![held_a.clone(), held_b.clone(), new_c.clone(), new_d.clone()];
    assert_eq!(first_new(&recorder.dinos, &draws), Some(2));
    assert_eq!(first_new(&recorder.dinos, &vec![new_d.clone(), new_c.clone()]), Some(0));
    assert_eq!(first_new(&recorder.dinos, &vec![held_b.clone(), held_a.clone()]), None);
    assert_eq!(first_new(&recorder.dinos, &Vec::new()), None);
}

#[test]
fn only_twenty_draws_count() {
    let mut recorder = Recorder::new();
    recorder.insert_dino(7, &parts("a", "grin", "sleepy", "A"), "a.png", 1).unwrap();
    let held = parts("a", "grin", "sleepy", "x");
    let new = parts("c", "grin", "sleepy", "z");
    let mut draws: Vec<DinoParts> = (0..19).map(|_| held.clone()).collect();
    draws.push(new.clone());
    draws.push(new.clone());
    // The twentieth draw still counts.
    assert_eq!(first_new(&recorder.dinos, &draws), Some(19));
    // The twenty-first does not.
    draws[19] = held.clone();
    assert_eq!(draws.len(), 21);
    assert_eq!(first_new(&recorder.dinos, &draws), None);
}

#[test]
fn draws_come_in_the_number_asked_for() {
    let fragments = single_choice();
    assert_eq!(draw_parts(&fragments, 0).len(), 0);
    let draws = draw_parts(&fragments, MAX_GENERATION_ATTEMPTS);
    assert_eq!(draws.len(), 20);
    for drawn in &draws {
        assert_eq!(drawn.name, "rexrinepy");
    }
}
