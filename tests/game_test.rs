use similarium::game::{should_taunt, Game, GameEvent, Similarity};
use similarium::normalize::normalize;
use similarium::{SimilariumError, SimilariumErrorType};

fn found(rank: u64) -> Result<Similarity, SimilariumError> {
    Ok(Similarity { rank, similarity: 1_000_000 - rank as i64 })
}

fn new_game(secret: &str) -> Game {
    Game::new(1, "channel_id".to_string(), 1, 0, secret.to_string())
}

#[test]
fn test_adding_guess_to_game() {
    let mut game = new_game("secret");
    assert_eq!(game.get_guess_count(), 0);

    game.submit_guess("user_id_1", "apple".to_string(), found(250), 0).unwrap();

    assert_eq!(game.get_guess_count(), 1);
}

#[test]
fn test_submitting_guess_to_game_preprocesses_guesses() {
    let mut game = new_game("secret");
    let variants: Vec<(String, String)> = vec![];

    let word = normalize("fruit", &variants);
    let guess = game.submit_guess("user_id_1", word, found(40), 1).unwrap().guess;
    assert_eq!(guess.word, "fruit");

    let word = normalize("Happy", &variants);
    let guess = game.submit_guess("user_id_1", word, found(41), 2).unwrap().guess;
    assert_eq!(guess.word, "happy");

    let word = normalize(" PEAR ", &variants);
    let guess = game.submit_guess("user_id_1", word, found(42), 3).unwrap().guess;
    assert_eq!(guess.word, "pear");
}

#[test]
fn test_normalize_maps_spelling_variants() {
    let variants = vec![
        ("colour".to_string(), "color".to_string()),
        ("flavour".to_string(), "flavor".to_string()),
    ];
    assert_eq!(normalize("  Colour\n", &variants), "color");
    assert_eq!(normalize("FLAVOUR", &variants), "flavor");
    assert_eq!(normalize("honour", &variants), "honour");
    assert_eq!(normalize("\u{3000}Ärger\t", &variants), "ärger");
}

#[test]
fn test_scenario_three_users_reach_the_secret() {
    let mut game = new_game("car");

    let a = game.submit_guess("A", "airplane".to_string(), found(5000), 10).unwrap();
    assert_eq!(a.events, vec![GameEvent::GuessAccepted]);
    assert!(a.is_new);
    assert_eq!(a.guess.guess_num, 1);

    let b = game.submit_guess("B", "vehicle".to_string(), found(3), 20).unwrap();
    assert_eq!(
        b.events,
        vec![
            GameEvent::MilestoneReached(1000),
            GameEvent::MilestoneReached(100),
            GameEvent::MilestoneReached(10),
        ]
    );
    assert_eq!(b.guess.guess_num, 2);

    let c = game.submit_guess("C", "car".to_string(), found(0), 30).unwrap();
    assert_eq!(c.events, vec![GameEvent::GameWon("C".to_string())]);
    assert_eq!(c.guess.guess_num, 3);

    let winners = game.get_winners();
    assert_eq!(winners.len(), 1);
    assert_eq!(winners[0].user_id, "C");
    assert_eq!(winners[0].guess_idx, 3);
    assert_eq!(winners[0].created, 30);
    assert!(game.user_already_won("C"));
    assert!(!game.user_already_won("A"));
    assert_eq!(game.get_top_guess_rank(), Some(0));
}

#[test]
fn test_resubmission_updates_only_latest_submitter() {
    let mut game = new_game("car");
    game.submit_guess("A", "truck".to_string(), found(20), 1).unwrap();
    game.submit_guess("B", "bus".to_string(), found(30), 2).unwrap();

    let again = game.submit_guess("C", "truck".to_string(), found(999), 3).unwrap();
    assert!(!again.is_new);
    assert_eq!(again.events, vec![GameEvent::GuessAccepted]);
    assert_eq!(game.get_guess_count(), 2);

    let entry = &game.get_guesses()[0];
    assert_eq!(entry.word, "truck");
    assert_eq!(entry.rank, 20);
    assert_eq!(entry.similarity, 1_000_000 - 20);
    assert_eq!(entry.guess_num, 1);
    assert_eq!(entry.user_id, "A");
    assert_eq!(entry.latest_guess_user_id, "C");
    assert_eq!(entry.updated, 3);
}

#[test]
fn test_second_user_finding_known_secret_wins_with_count() {
    let mut game = new_game("car");
    game.submit_guess("A", "car".to_string(), found(0), 1).unwrap();
    game.submit_guess("B", "bus".to_string(), found(30), 2).unwrap();

    let late = game.submit_guess("B", "car".to_string(), found(0), 3).unwrap();
    assert!(!late.is_new);
    assert_eq!(late.events, vec![GameEvent::GameWon("B".to_string())]);
    let winners = game.get_winners();
    assert_eq!(winners.len(), 2);
    assert_eq!(winners[0].guess_idx, 1);
    assert_eq!(winners[1].user_id, "B");
    assert_eq!(winners[1].guess_idx, 2);
}

#[test]
fn test_winner_cannot_guess_again() {
    let mut game = new_game("car");
    game.submit_guess("A", "car".to_string(), found(0), 1).unwrap();

    let err = game.submit_guess("A", "bus".to_string(), found(30), 2).unwrap_err();
    assert_eq!(err.error_type, SimilariumErrorType::AlreadyWon);
    assert_eq!(game.get_guess_count(), 1);
    assert_eq!(game.get_winners().len(), 1);
}

#[test]
fn test_oracle_error_is_passed_through_without_change() {
    let mut game = new_game("car");
    let missing = Err(SimilariumError {
        message: Some("Not found".to_string()),
        error_type: SimilariumErrorType::NotFound,
    });
    let err = game.submit_guess("A", "qwxz".to_string(), missing, 1).unwrap_err();
    assert_eq!(err.error_type, SimilariumErrorType::NotFound);
    assert_eq!(err.message, Some("Not found".to_string()));
    assert_eq!(game.get_guess_count(), 0);
}

#[test]
fn test_ended_game_rejects_guesses() {
    let mut game = new_game("car");
    game.active = false;
    let err = game.submit_guess("A", "bus".to_string(), found(30), 1).unwrap_err();
    assert_eq!(err.error_type, SimilariumErrorType::ValidationError);
    assert_eq!(game.get_guess_count(), 0);
}

#[test]
fn test_milestone_fires_once_per_bucket() {
    let mut game = new_game("car");
    let first = game.submit_guess("A", "van".to_string(), found(500), 1).unwrap();
    assert_eq!(first.events, vec![GameEvent::MilestoneReached(1000)]);
    let second = game.submit_guess("B", "lorry".to_string(), found(700), 2).unwrap();
    assert_eq!(second.events, vec![GameEvent::GuessAccepted]);
    let third = game.submit_guess("C", "bus".to_string(), found(400), 3).unwrap();
    assert_eq!(third.events, vec![GameEvent::GuessAccepted]);
    let fourth = game.submit_guess("D", "taxi".to_string(), found(50), 4).unwrap();
    assert_eq!(fourth.events, vec![GameEvent::MilestoneReached(100)]);
}

#[test]
fn test_sequence_numbers_are_consecutive() {
    let mut game = new_game("car");
    for (i, word) in ["a", "b", "a", "c", "b", "d"].iter().enumerate() {
        game.submit_guess("U", word.to_string(), found(2000 + i as u64), i as i64).unwrap();
    }
    let nums: Vec<u64> = game.get_guesses().iter().map(|g| g.guess_num).collect();
    assert_eq!(nums, vec![1, 2, 3, 4]);
    let words: Vec<&str> = game.get_guesses().iter().map(|g| g.word.as_str()).collect();
    assert_eq!(words, vec!["a", "b", "c", "d"]);
}

#[test]
fn test_should_taunt_decisions() {
    // nobody close, 50 guesses since the last taunt: threshold 40/(1.1*50) ~ 0.727
    assert!(!should_taunt(50, 0, 5000, 0));
    assert!(!should_taunt(50, 0, 5000, 3_000_000_000));
    assert!(should_taunt(50, 0, 5000, 3_200_000_000));
    // someone within the top 1000
    assert!(!should_taunt(50, 0, 1000, u32::MAX));
    // not enough guesses since the last taunt
    assert!(!should_taunt(40, 0, 5000, u32::MAX));
    assert!(!should_taunt(90, 50, 5000, u32::MAX));
}

#[test]
fn test_maybe_taunt_moves_taunt_index() {
    let mut game = new_game("car");
    for i in 0..45u64 {
        game.submit_guess("U", format!("w{i}"), found(5000 + i), i as i64).unwrap();
    }
    assert!(!game.maybe_taunt(0));
    assert_eq!(game.taunt_index, 0);
    assert!(game.maybe_taunt(u32::MAX));
    assert_eq!(game.taunt_index, 45);
    assert!(!game.maybe_taunt(u32::MAX));
}

#[test]
fn test_guess_is_secret() {
    let mut game = new_game("car");
    let out = game.submit_guess("A", "car".to_string(), found(0), 1).unwrap();
    assert!(out.guess.is_secret());
    let out = game.submit_guess("B", "bus".to_string(), found(9), 1).unwrap();
    assert!(!out.guess.is_secret());
}
