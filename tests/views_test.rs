use similarium::blocks::{BlockType, TextType};
use similarium::game::{Game, Similarity};
use similarium::models::{GuessContextOrder, User};
use similarium::views::{get_game_blocks, get_header_body, get_help_blocks, PACKAGE_VERSION};

fn user(id: &str, name: &str) -> User {
    User { id: id.to_string(), profile_photo: format!("{id}.png"), username: name.to_string() }
}

fn game_with_guesses() -> Game {
    let mut game = Game::new(1, "channel".to_string(), 7, 1_651_881_600_000, "secret".to_string());
    game.submit_guess("user_3", "fruit".to_string(), Ok(Similarity { rank: 40, similarity: 500_000 }), 100)
        .unwrap();
    game.submit_guess("user_3", "happy".to_string(), Ok(Similarity { rank: 900, similarity: 200_000 }), 200)
        .unwrap();
    game.submit_guess("user_1", "happy".to_string(), Ok(Similarity { rank: 900, similarity: 200_000 }), 300)
        .unwrap();
    game
}

fn users() -> Vec<User> {
    vec![user("user_1", "user_1"), user("user_3", "user_3")]
}

#[test]
fn test_get_guess_contexts_order_by_updated_gives_latest_guesser() {
    let game = game_with_guesses();
    let guess_contexts = game.get_guess_contexts(GuessContextOrder::GuessUpdated, 3, &users());
    assert_eq!(guess_contexts.len(), 2);

    assert_eq!(guess_contexts[0].guess_num, 2);
    assert_eq!(guess_contexts[0].word, "happy");
    assert_eq!(guess_contexts[0].username, "user_1");

    assert_eq!(guess_contexts[1].guess_num, 1);
    assert_eq!(guess_contexts[1].word, "fruit");
    assert_eq!(guess_contexts[1].username, "user_3");
}

#[test]
fn test_get_guess_contexts_order_by_rank_gives_original_guesser() {
    let game = game_with_guesses();
    let guess_contexts = game.get_guess_contexts(GuessContextOrder::Rank, 3, &users());
    assert_eq!(guess_contexts.len(), 2);

    assert_eq!(guess_contexts[0].guess_num, 1);
    assert_eq!(guess_contexts[0].word, "fruit");
    assert_eq!(guess_contexts[0].username, "user_3");

    assert_eq!(guess_contexts[1].guess_num, 2);
    assert_eq!(guess_contexts[1].word, "happy");
    assert_eq!(guess_contexts[1].username, "user_3");
}

#[test]
fn test_get_guess_contexts_limits_and_orders() {
    let mut game = Game::new(1, "c".to_string(), 1, 0, "s".to_string());
    for (i, rank) in [50u64, 10, 30, 20, 40].iter().enumerate() {
        game.submit_guess("u", format!("w{rank}"), Ok(Similarity { rank: *rank, similarity: 0 }), i as i64)
            .unwrap();
    }
    let top = game.get_guess_contexts(GuessContextOrder::Rank, 3, &vec![]);
    let ranks: Vec<i64> = top.iter().map(|c| c.rank).collect();
    assert_eq!(ranks, vec![10, 20, 30]);
    assert_eq!(top[0].username, "");
    let latest = game.get_guess_contexts(GuessContextOrder::GuessUpdated, 2, &vec![]);
    let words: Vec<&str> = latest.iter().map(|c| c.word.as_str()).collect();
    assert_eq!(words, vec!["w40", "w20"]);
}

#[test]
fn test_get_header_body_active_game() {
    let game = Game::new(1, "channel".to_string(), 1, 0, "secret".to_string());
    assert_eq!(get_header_body(&game), "*Guesses*: 0");
}

#[test]
fn test_get_header_body_active_game_with_guesses() {
    let game = game_with_guesses();
    assert_eq!(get_header_body(&game), "*Guesses*: 2");
}

#[test]
fn test_get_header_body_inactive_game_no_winners() {
    let mut game = Game::new(2, "channel".to_string(), 1, 0, "secret".to_string());
    game.active = false;
    assert_eq!(get_header_body(&game), "The secret was *secret* :tada:\n*No winners*");
}

#[test]
fn test_get_header_body_inactive_game_with_winners() {
    let mut game = Game::new(2, "channel".to_string(), 1, 0, "secret".to_string());
    game.submit_guess("user_id_1", "secret".to_string(), Ok(Similarity { rank: 0, similarity: 1_000_000 }), 1)
        .unwrap();
    game.active = false;
    assert_eq!(
        get_header_body(&game),
        "The secret was *secret* :tada:\n*Winners*\n:first_place_medal: <@user_id_1> on guess 1"
    );
}

#[test]
fn test_get_help_blocks() {
    let blocks = get_help_blocks();
    assert_eq!(blocks.len(), 4);
    assert_eq!(blocks[0].text.as_ref().unwrap().text, "Hello there :wave: here's what you can do!");
    let about = blocks[3].fields.as_ref().unwrap();
    assert_eq!(about[0].text, "Version");
    assert_eq!(about[1].text, PACKAGE_VERSION);
    assert!(blocks.iter().all(|b| b.kind == BlockType::Section));
}

#[test]
fn test_get_game_blocks_active_game() {
    let game = game_with_guesses();
    let blocks = get_game_blocks(&game, &users());
    // header, body, latest title, 2 latest, top title, 2 top, input
    assert_eq!(blocks.len(), 9);
    assert_eq!(blocks[0].kind, BlockType::Header);
    assert_eq!(
        blocks[0].text.as_ref().unwrap().text,
        "Saturday May 7 - Puzzle number 7"
    );
    assert_eq!(blocks[0].text.as_ref().unwrap().kind, TextType::PlainText);
    assert_eq!(blocks[2].text.as_ref().unwrap().text, "*Latest guesses*");
    assert_eq!(blocks[3].kind, BlockType::Context);
    assert_eq!(blocks[5].text.as_ref().unwrap().text, "*Top guesses*");
    assert_eq!(blocks[8].kind, BlockType::Input);
}

#[test]
fn test_get_game_blocks_finished_game() {
    let mut game = game_with_guesses();
    game.active = false;
    let blocks = get_game_blocks(&game, &users());
    assert_eq!(blocks.len(), 5);
    assert_eq!(blocks[2].text.as_ref().unwrap().text, "*Top guesses*");
}
