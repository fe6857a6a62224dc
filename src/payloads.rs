use vstd::prelude::*;
use crate::dates::{get_utc_naive_time, shifted_back, when_human, when_human_of, TimeOfDay};
use crate::display::{signed_decimal, signed_decimal_of};
use crate::error::{SimilariumError, SimilariumErrorType};
use crate::models;
use crate::normalize::{trim, trimmed};

verus! {

/// The user who triggered an interaction.
#[derive(Debug, PartialEq, Eq)]
pub struct User {
    pub id: String,
    pub username: String,
    pub name: String,
    pub team_id: String,
}

/// A user's details as the chat platform reports them.
#[derive(Debug, PartialEq, Eq)]
pub struct UserInfo {
    pub id: String,
    pub name: String,
    pub real_name: String,
    pub profile: Profile,
}

/// A user's profile.
#[derive(Debug, PartialEq, Eq)]
pub struct Profile {
    pub avatar_hash: String,
    pub status_text: String,
    pub status_emoji: String,
    pub real_name: String,
    pub display_name: String,
    pub real_name_normalized: String,
    pub display_name_normalized: String,
    pub image_original: String,
    pub image_24: String,
    pub image_32: String,
    pub image_48: String,
    pub image_72: String,
    pub image_192: String,
    pub image_512: String,
}

/// The user that authorized an installation.
#[derive(Debug, PartialEq, Eq)]
pub struct AuthedUser {
    pub id: String,
    pub scope: Option<String>,
    pub access_token: Option<String>,
    pub token_type: Option<String>,
    pub refresh_token: Option<String>,
    pub expires_in: Option<u32>,
}

/// Where an interaction happened.
#[derive(Debug, PartialEq, Eq)]
pub struct Container {
    pub kind: String,
    pub message_ts: String,
    pub channel_id: String,
    pub is_ephemeral: bool,
}

/// A workspace.
#[derive(Debug, PartialEq, Eq)]
pub struct Team {
    pub id: String,
    pub domain: Option<String>,
    pub name: Option<String>,
}

/// The channel of an interaction.
#[derive(Debug, PartialEq, Eq)]
pub struct Channel {
    pub id: String,
}

/// The message an interaction belongs to, by its timestamp.
#[derive(Debug, PartialEq, Eq)]
pub struct Message {
    pub ts: String,
}

/// An action taken on a block, with the value typed in.
#[derive(Debug, PartialEq, Eq)]
pub struct Action {
    pub action_id: String,
    pub value: String,
}

/// An enterprise grid organization.
#[derive(Debug, PartialEq, Eq)]
pub struct Enterprise {
    pub id: String,
    pub name: Option<String>,
}

/// A slash command invocation.
#[derive(Debug, PartialEq, Eq)]
pub struct CommandPayload {
    pub team_id: String,
    pub channel_id: String,
    pub user_id: String,
    pub text: String,
    pub api_app_id: String,
}

/// An interaction with a message of the game.
#[derive(Debug, PartialEq, Eq)]
pub struct EventPayload {
    pub user: User,
    pub api_app_id: String,
    pub token: String,
    pub channel: Channel,
    pub message: Message,
    pub actions: Vec<Action>,
}

/// An interaction as it arrives: its payload still encoded as JSON.
#[derive(Debug, PartialEq, Eq)]
pub struct Event {
    pub payload: String,
}

/// The answer to an installation's OAuth exchange.
#[derive(Debug, PartialEq, Eq)]
pub struct SlackOAuthResponse {
    pub ok: bool,
    pub error: Option<String>,
    pub access_token: Option<String>,
    pub scope: Option<String>,
    pub bot_user_id: Option<String>,
    pub app_id: String,
    pub team: Team,
    pub is_enterprise_install: bool,
}

/// The answer to a request for a user's details.
#[derive(Debug, PartialEq, Eq)]
pub struct UserInfoResponse {
    pub ok: bool,
    pub error: Option<String>,
    pub user: Option<UserInfo>,
}

/// The action id of the input in which guesses are typed.
pub open spec fn submit_guess_action() -> Seq<char> {
    "submit-guess"@
}

/// The guess typed in an interaction: its one action must be a guess
/// submission, and the value is taken without surrounding white space.
pub fn guess_from_event(payload: &EventPayload) -> (r: Result<String, SimilariumError>)
    ensures
        payload.actions@.len() != 1 ==> (r matches Err(e) && e.error_type
            == SimilariumErrorType::ValidationError),
        payload.actions@.len() == 1 && payload.actions@[0].action_id@ != submit_guess_action() ==> (
        r matches Err(e) && e.error_type == SimilariumErrorType::ValidationError && (e.message matches Some(
            m,
        ) && m@ == "Invalid action_id: "@ + payload.actions@[0].action_id@)),
        payload.actions@.len() == 1 && payload.actions@[0].action_id@ == submit_guess_action() ==> (
        r matches Ok(g) && g@ == trimmed(payload.actions@[0].value@)),
{
    proof {
        reveal_strlit("submit-guess");
        reveal_strlit("Invalid action_id: ");
        reveal_strlit("Unsupported interaction");
    }
    if payload.actions.len() != 1 {
        return Err(SimilariumError::validation(String::from_str("Unsupported interaction")));
    }
    let action = &payload.actions[0];
    if action.action_id != String::from_str("submit-guess") {
        let mut message = String::from_str("Invalid action_id: ");
        message.append(action.action_id.as_str());
        return Err(SimilariumError::validation(message));
    }
    Ok(trim(action.value.as_str()).to_string())
}

/// What `format!("{:?}", s)` gives for a string: the string quoted, with
/// special characters escaped.
pub uninterp spec fn debug_quoted(s: Seq<char>) -> Seq<char>;

/// Relies on the `Debug` formatting of `str`: the text in double quotes
/// with its special characters escaped.
#[verifier::external_body]
fn quoted(s: &str) -> (r: String)
    ensures
        r@ == debug_quoted(s@),
{
    format!("{:?}", s)
}

/// The user's details from a user-info answer, or a validation error that
/// quotes the platform's error when it gave one.
pub fn user_details(response: UserInfoResponse) -> (r: Result<UserInfo, SimilariumError>)
    ensures
        response.ok && response.user is Some ==> r == Ok::<UserInfo, SimilariumError>(response.user->0),
        !(response.ok && response.user is Some) ==> (r matches Err(e) && e.error_type
            == SimilariumErrorType::ValidationError),
        !response.ok && response.error is Some ==> (r matches Err(e) && (e.message matches Some(m)
            && m@ == "Error fetching user details: "@ + debug_quoted(response.error->0@))),
{
    proof {
        reveal_strlit("Error fetching user details: ");
        reveal_strlit("Error fetching user details");
    }
    if response.ok {
        if let Some(user) = response.user {
            return Ok(user);
        }
    }
    if !response.ok {
        if let Some(error) = &response.error {
            let mut message = String::from_str("Error fetching user details: ");
            message.append(quoted(error.as_str()).as_str());
            return Err(SimilariumError::validation(message));
        }
    }
    Err(SimilariumError::validation(String::from_str("Error fetching user details")))
}

/// The message for starting a game on a channel that already has one.
pub open spec fn already_registered_message() -> Seq<char> {
    ":no_entry_sign: Game is already registered for the channel. Please use the \"stop\" command before running \"start\" again."@
}

/// The offset label that follows a start time: "UTC" or "UTC" with the
/// signed whole hours of the offset.
pub open spec fn utc_label(offset: int) -> Seq<char> {
    if offset == 0 {
        "UTC"@
    } else if offset < 0 {
        "UTC-"@ + signed_decimal_of(-offset / 3600)
    } else {
        "UTC+"@ + signed_decimal_of(offset / 3600)
    }
}

/// The announcement that `user` started a daily game at local `time`.
pub open spec fn start_announcement(user: Seq<char>, time: TimeOfDay, offset: int) -> Seq<char> {
    "<@"@ + user + "> has started a daily game of Similarium "@ + when_human_of(time) + seq![' ']
        + utc_label(offset)
}

/// The outcome of a start command: the channel as it is to be stored and
/// the announcement to post.
#[derive(Debug)]
pub struct Schedule {
    pub channel: models::Channel,
    pub announcement: String,
}

/// Schedules the daily game of channel `channel_id` at the local `time` of
/// a user `timezone_offset` seconds ahead of UTC. A channel that already
/// runs a game is refused; otherwise the channel (the stored one, or a new
/// one of `team_id`) becomes active at the UTC hour and minute of `time`.
pub fn schedule_game_on_channel(
    existing: Option<models::Channel>,
    channel_id: &str,
    team_id: &str,
    user_id: &str,
    time: TimeOfDay,
    timezone_offset: i32,
) -> (r: Result<Schedule, SimilariumError>)
    requires
        time.wf(),
    ensures
        existing matches Some(c) && c.active <==> r is Err,
        r matches Err(e) ==> e.error_type == SimilariumErrorType::ValidationError && (e.message matches Some(m) && m@ == already_registered_message()),
        r matches Ok(s) ==> {
            &&& s.channel.active
            &&& s.channel.hour * 3600 + s.channel.minute * 60 <= shifted_back(time, timezone_offset as int)
            &&& shifted_back(time, timezone_offset as int) < s.channel.hour * 3600 + s.channel.minute * 60 + 60
            &&& match existing {
                Some(c) => s.channel.id == c.id && s.channel.team_id == c.team_id,
                None => s.channel.id@ == channel_id@ && s.channel.team_id@ == team_id@,
            }
            &&& s.announcement@ == start_announcement(user_id@, time, timezone_offset as int)
        },
{
    proof {
        reveal_strlit(":no_entry_sign: Game is already registered for the channel. Please use the \"stop\" command before running \"start\" again.");
        reveal_strlit("UTC");
        reveal_strlit("UTC-");
        reveal_strlit("UTC+");
        reveal_strlit("<@");
        reveal_strlit("> has started a daily game of Similarium ");
        reveal_strlit(" ");
    }
    if let Some(c) = &existing {
        if c.active {
            return Err(SimilariumError::validation(String::from_str(
                ":no_entry_sign: Game is already registered for the channel. Please use the \"stop\" command before running \"start\" again.",
            )));
        }
    }
    let utc = get_utc_naive_time(time, timezone_offset);
    let channel = match existing {
        Some(c) => models::Channel {
            id: c.id,
            team_id: c.team_id,
            hour: utc.hour as i32,
            minute: utc.minute as i32,
            active: true,
        },
        None => models::Channel {
            id: channel_id.to_string(),
            team_id: team_id.to_string(),
            hour: utc.hour as i32,
            minute: utc.minute as i32,
            active: true,
        },
    };
    let label = if timezone_offset == 0 {
        String::from_str("UTC")
    } else if timezone_offset < 0 {
        let mut l = String::from_str("UTC-");
        l.append(signed_decimal(-(timezone_offset as i64) / 3600).as_str());
        l
    } else {
        let mut l = String::from_str("UTC+");
        l.append(signed_decimal((timezone_offset as i64) / 3600).as_str());
        l
    };
    let mut announcement = String::from_str("<@");
    announcement.append(user_id);
    announcement.append("> has started a daily game of Similarium ");
    announcement.append(when_human(time).as_str());
    announcement.append(" ");
    announcement.append(label.as_str());
    Ok(Schedule { channel, announcement })
}

} // verus!
