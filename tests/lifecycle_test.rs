use similarium::game::{Game, Similarity};
use similarium::lifecycle::{
    get_channels_for_hour_minute, get_next_puzzle_number, plan_rollover, start_game, stop_games_on_channel,
};
use similarium::models::Channel;
use similarium::shuffle::get_secret;
use similarium::SimilariumErrorType;

fn channel(id: &str, hour: i32, minute: i32, active: bool) -> Channel {
    Channel { id: id.to_string(), team_id: "team_id".to_string(), hour, minute, active }
}

fn words() -> Vec<String> {
    (0..100).map(|i| format!("w{i}")).collect()
}

#[test]
fn test_get_next_puzzle_number_with_no_games_is_1() {
    assert_eq!(get_next_puzzle_number(None), 1);
}

#[test]
fn test_get_next_puzzle_number_increments_last_highest() {
    assert_eq!(get_next_puzzle_number(Some(3)), 4);
}

#[test]
fn test_start_game_uses_channel_secret() {
    let c = channel("channel_id", 0, 0, true);
    let game = start_game(9, &c, 4, 1000, &words());
    assert!(game.active);
    assert_eq!(game.secret, get_secret("channel_id", 4, &words()));
    assert_eq!(game.puzzle_number, 4);
    assert_eq!(game.channel_id, "channel_id");
    assert_eq!(game.get_guess_count(), 0);
}

#[test]
fn test_end_game_keeps_ledger() {
    let mut game = Game::new(1, "c".to_string(), 1, 0, "s".to_string());
    game.submit_guess("u", "a".to_string(), Ok(Similarity { rank: 5, similarity: 0 }), 0).unwrap();
    game.end();
    assert!(!game.active);
    assert_eq!(game.get_guess_count(), 1);
}

#[test]
fn test_stop_games_on_channel() {
    let (stopped, message) = stop_games_on_channel(Some(channel("c", 1, 2, true)), "user_id").unwrap();
    assert!(!stopped.active);
    assert_eq!((stopped.hour, stopped.minute), (1, 2));
    assert_eq!(message, "<@user_id> has stopped the daily game of Similarium");
    let err = stop_games_on_channel(None, "user_id").unwrap_err();
    assert_eq!(err.error_type, SimilariumErrorType::ValidationError);
}

#[test]
fn test_channels_for_hour_minute() {
    let channels = vec![
        channel("a", 8, 0, true),
        channel("b", 8, 0, false),
        channel("c", 9, 0, true),
        channel("d", 8, 0, true),
    ];
    assert_eq!(get_channels_for_hour_minute(&channels, 8, 0), vec![0, 3]);
    assert_eq!(get_channels_for_hour_minute(&channels, 7, 0), Vec::<usize>::new());
}

#[test]
fn test_rollover_keeps_idle_games() {
    let mut played = Game::new(1, "c".to_string(), 1, 0, "s".to_string());
    played.submit_guess("u", "a".to_string(), Ok(Similarity { rank: 5, similarity: 0 }), 0).unwrap();
    let idle = Game::new(2, "c".to_string(), 2, 0, "t".to_string());

    let plan = plan_rollover(&vec![played]);
    assert_eq!(plan.end, vec![0]);
    assert!(plan.start_new);

    let mut played = Game::new(1, "c".to_string(), 1, 0, "s".to_string());
    played.submit_guess("u", "a".to_string(), Ok(Similarity { rank: 5, similarity: 0 }), 0).unwrap();
    let plan = plan_rollover(&vec![played, idle]);
    assert_eq!(plan.end, vec![0]);
    assert_eq!(plan.idle, vec![1]);
    assert!(!plan.start_new);
}

#[test]
fn test_participant_user_ids() {
    let mut game = Game::new(1, "c".to_string(), 1, 0, "s".to_string());
    for (user, word) in [("u1", "a"), ("u2", "b"), ("u1", "c"), ("u3", "b"), ("u3", "d")] {
        game.submit_guess(user, word.to_string(), Ok(Similarity { rank: 50, similarity: 0 }), 0).unwrap();
    }
    assert_eq!(game.get_participant_user_ids(), vec!["u1", "u2", "u3"]);
}
