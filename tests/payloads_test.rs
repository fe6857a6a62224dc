use similarium::config::{parse_unsigned, Config};
use similarium::dates::TimeOfDay;
use similarium::models;
use similarium::payloads::{
    guess_from_event, schedule_game_on_channel, user_details, Action, Channel, EventPayload, Message,
    Profile, User, UserInfo, UserInfoResponse,
};
use similarium::SimilariumErrorType;

fn event(actions: Vec<Action>) -> EventPayload {
    EventPayload {
        user: User {
            id: "U1".to_string(),
            username: "u".to_string(),
            name: "u".to_string(),
            team_id: "T1".to_string(),
        },
        api_app_id: "A1".to_string(),
        token: "token".to_string(),
        channel: Channel { id: "C1".to_string() },
        message: Message { ts: "123.456".to_string() },
        actions,
    }
}

fn action(id: &str, value: &str) -> Action {
    Action { action_id: id.to_string(), value: value.to_string() }
}

#[test]
fn test_guess_from_event_trims_value() {
    let payload = event(vec![action("submit-guess", "  apple ")]);
    assert_eq!(guess_from_event(&payload).unwrap(), "apple");
}

#[test]
fn test_guess_from_event_rejects_other_actions() {
    let payload = event(vec![action("other", "x")]);
    let err = guess_from_event(&payload).unwrap_err();
    assert_eq!(err.error_type, SimilariumErrorType::ValidationError);
    assert_eq!(err.message, Some("Invalid action_id: other".to_string()));
    let payload = event(vec![]);
    assert!(guess_from_event(&payload).is_err());
}

fn profile() -> Profile {
    let s = || "x".to_string();
    Profile {
        avatar_hash: s(),
        status_text: s(),
        status_emoji: s(),
        real_name: s(),
        display_name: s(),
        real_name_normalized: s(),
        display_name_normalized: s(),
        image_original: s(),
        image_24: "photo24".to_string(),
        image_32: s(),
        image_48: s(),
        image_72: s(),
        image_192: s(),
        image_512: s(),
    }
}

#[test]
fn test_user_details() {
    let info = UserInfo { id: "U1".to_string(), name: "n".to_string(), real_name: "r".to_string(), profile: profile() };
    let ok = UserInfoResponse { ok: true, error: None, user: Some(info) };
    assert_eq!(user_details(ok).unwrap().profile.image_24, "photo24");
    let failed = UserInfoResponse { ok: false, error: Some("user_not_found".to_string()), user: None };
    let err = user_details(failed).unwrap_err();
    assert_eq!(err.message, Some("Error fetching user details: \"user_not_found\"".to_string()));
    let empty = UserInfoResponse { ok: true, error: None, user: None };
    assert_eq!(user_details(empty).unwrap_err().message, Some("Error fetching user details".to_string()));
}

#[test]
fn test_schedule_game_on_channel_posts_to_slack_that_user_started_game() {
    let time = TimeOfDay::from_hm(0, 0).unwrap();
    let schedule = schedule_game_on_channel(None, "channel_id", "team_id", "user_id", time, 0).unwrap();
    assert_eq!(
        schedule.announcement,
        "<@user_id> has started a daily game of Similarium late night at 00:00 UTC"
    );
}

#[test]
fn test_schedule_game_on_channel_creates_channel_if_it_doesnt_exist() {
    let time = TimeOfDay::from_hm(9, 30).unwrap();
    let schedule = schedule_game_on_channel(None, "channel_id", "team_id", "user_id", time, 3600).unwrap();
    assert_eq!(schedule.channel.id, "channel_id");
    assert_eq!(schedule.channel.team_id, "team_id");
    assert_eq!((schedule.channel.hour, schedule.channel.minute), (8, 30));
    assert!(schedule.channel.active);
    assert!(schedule.announcement.ends_with("in the morning at 09:30 UTC+1"));
}

#[test]
fn test_schedule_game_on_channel_updates_channel_if_it_exists() {
    let existing = models::Channel {
        id: "channel_id".to_string(),
        team_id: "team".to_string(),
        hour: 3,
        minute: 0,
        active: false,
    };
    let time = TimeOfDay::from_hm(1, 0).unwrap();
    let schedule = schedule_game_on_channel(Some(existing), "other", "other", "u", time, -7200).unwrap();
    assert_eq!(schedule.channel.id, "channel_id");
    assert_eq!((schedule.channel.hour, schedule.channel.minute), (3, 0));
    assert!(schedule.announcement.ends_with("UTC-2"));
}

#[test]
fn test_schedule_game_on_channel_raises_error_if_channel_already_active() {
    let existing = models::Channel {
        id: "channel_id".to_string(),
        team_id: "team".to_string(),
        hour: 3,
        minute: 0,
        active: true,
    };
    let time = TimeOfDay::from_hm(1, 0).unwrap();
    let err = schedule_game_on_channel(Some(existing), "channel_id", "team", "u", time, 0).unwrap_err();
    assert_eq!(err.error_type, SimilariumErrorType::ValidationError);
    assert!(err.message.unwrap().starts_with(":no_entry_sign: Game is already registered"));
}

#[test]
fn test_parse_unsigned() {
    assert_eq!(parse_unsigned("8080", 65535), Some(8080));
    assert_eq!(parse_unsigned("+12", 65535), Some(12));
    assert_eq!(parse_unsigned("65536", 65535), None);
    assert_eq!(parse_unsigned("", 65535), None);
    assert_eq!(parse_unsigned("+", 65535), None);
    assert_eq!(parse_unsigned("-1", 65535), None);
    assert_eq!(parse_unsigned("12a", 65535), None);
    assert_eq!(parse_unsigned("18446744073709551615", u64::MAX), Some(u64::MAX));
    assert_eq!(parse_unsigned("18446744073709551616", u64::MAX), None);
}

#[test]
fn test_config_from_values() {
    let some = |s: &str| Some(s.to_string());
    let config = Config::from_values(some("id"), some("secret"), some("db"), None, None, None, None).unwrap();
    assert_eq!(config.port, 8080);
    assert_eq!(config.host, "127.0.0.1");
    assert_eq!(config.worker_count, 3);
    assert_eq!(config.worker_max_pool_size, 3);

    let config = Config::from_values(some("id"), some("secret"), some("db"), some("9000"), some("0.0.0.0"), some("5"), some("7"))
        .unwrap();
    assert_eq!((config.port, config.host.as_str(), config.worker_count, config.worker_max_pool_size), (9000, "0.0.0.0", 5, 7));

    let err = Config::from_values(None, some("secret"), some("db"), None, None, None, None).unwrap_err();
    assert_eq!(err.error_type, SimilariumErrorType::EnvError);
    let err = Config::from_values(some("id"), some("secret"), some("db"), some("70000"), None, None, None).unwrap_err();
    assert_eq!(err.error_type, SimilariumErrorType::Error);
}

#[test]
fn test_schedule_game_on_channel_raises_error_if_unable_to_get_user_details() {
    let response = UserInfoResponse { ok: false, error: Some("Unable to get user details".to_string()), user: None };
    let err = user_details(response).unwrap_err();
    assert_eq!(err.error_type, SimilariumErrorType::ValidationError);
    assert_eq!(
        err.message,
        Some("Error fetching user details: \"Unable to get user details\"".to_string())
    );
}
