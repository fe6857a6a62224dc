use vstd::prelude::*;
use crate::error::{SimilariumError, SimilariumErrorType};
use crate::game::{Game, Guess};
use crate::models::Channel;
use crate::shuffle::{get_secret, shuffled_secret};

verus! {

/// The number of the next puzzle of a channel whose latest puzzle was
/// `last`: one more, or 1 for a channel without puzzles.
pub fn get_next_puzzle_number(last: Option<i64>) -> (r: i64)
    requires
        last matches Some(n) ==> n < i64::MAX,
    ensures
        r == match last {
            Some(n) => n + 1,
            None => 1,
        },
{
    match last {
        Some(n) => n + 1,
        None => 1,
    }
}

/// Starts puzzle `puzzle_number` of `channel` at `date`: a new active game
/// whose secret is the channel's shuffled pick from `words`.
pub fn start_game(id: u128, channel: &Channel, puzzle_number: i64, date: i64, words: &Vec<String>) -> (r: Game)
    requires
        words@.len() > 0,
        puzzle_number >= 0,
    ensures
        r.wf(),
        r.active,
        r.id == id,
        r.channel_id == channel.id,
        r.puzzle_number == puzzle_number,
        r.date == date,
        r.secret@ == shuffled_secret(words@.map_values(|w: String| w@), channel.id@, puzzle_number as nat),
        r.taunt_index == 0,
        r.guesses().len() == 0,
        r.winners().len() == 0,
{
    let secret = get_secret(channel.id.as_str(), puzzle_number, words);
    Game::new(id, channel.id.clone(), puzzle_number, date, secret)
}

/// Whether `user` first submitted some word of the ledger `s`.
pub open spec fn submitted_by(s: Seq<Guess>, user: Seq<char>) -> bool {
    exists|i: int| 0 <= i < s.len() && s[i].user_id@ == user
}

impl Game {
    /// Ends the game: it takes no more guesses; its ledger stays as it is.
    pub fn end(&mut self)
        ensures
            *final(self) == (Game { active: false, ..*old(self) }),
    {
        self.active = false;
    }

    /// The distinct users who first submitted some word, in order of their
    /// first such word.
    pub fn get_participant_user_ids(&self) -> (r: Vec<String>)
        ensures
            r@.map_values(|u: String| u@).no_duplicates(),
            forall|i: int|
                0 <= i < self.guesses().len() ==> r@.map_values(|u: String| u@).contains(
                    #[trigger] self.guesses()[i].user_id@,
                ),
            forall|k: int| 0 <= k < r@.len() ==> submitted_by(self.guesses(), #[trigger] r@[k]@),
    {
        let guesses = self.get_guesses();
        let mut out: Vec<String> = Vec::new();
        let mut i: usize = 0;
        while i < guesses.len()
            invariant
                i <= guesses@.len(),
                guesses@ == self.guesses(),
                out@.map_values(|u: String| u@).no_duplicates(),
                forall|j: int| 0 <= j < i ==> out@.map_values(|u: String| u@).contains(#[trigger] guesses@[j].user_id@),
                forall|k: int| 0 <= k < out@.len() ==> submitted_by(guesses@, #[trigger] out@[k]@),
            decreases guesses@.len() - i,
        {
            let id = &guesses[i].user_id;
            let mut seen = false;
            let mut k: usize = 0;
            while k < out.len()
                invariant
                    k <= out@.len(),
                    seen ==> out@.map_values(|u: String| u@).contains(id@),
                    !seen ==> forall|m: int| 0 <= m < k ==> out@[m]@ != id@,
                decreases out@.len() - k,
            {
                if out[k] == *id {
                    assert(out@.map_values(|u: String| u@)[k as int] == id@);
                    seen = true;
                }
                k = k + 1;
            }
            let ghost before = out@;
            if !seen {
                out.push(id.clone());
                proof {
                    let views = out@.map_values(|u: String| u@);
                    let old_views = before.map_values(|u: String| u@);
                    assert(views =~= old_views.push(id@));
                    assert(!old_views.contains(id@)) by {
                        if old_views.contains(id@) {
                            let m = choose|m: int| 0 <= m < old_views.len() && old_views[m] == id@;
                            assert(before[m]@ == id@);
                        }
                    }
                    assert forall|j: int| 0 <= j < i implies views.contains(#[trigger] guesses@[j].user_id@) by {
                        let m = choose|m: int| 0 <= m < old_views.len() && old_views[m] == guesses@[j].user_id@;
                        assert(views[m] == old_views[m]);
                    }
                    assert(views[views.len() - 1] == id@);
                    assert forall|k: int| 0 <= k < out@.len() implies submitted_by(guesses@, #[trigger] out@[k]@) by {
                        if k < before.len() {
                            assert(out@[k] == before[k]);
                        } else {
                            assert(out@[k]@ == guesses@[i as int].user_id@);
                        }
                    }
                }
            }
            i = i + 1;
        }
        out
    }
}

/// The message for stopping a channel that has no game.
pub open spec fn no_game_message() -> Seq<char> {
    ":no_entry_sign: No game is registered for the channel, did you mean to run \"start\"?"@
}

/// The announcement that `user` stopped the daily game.
pub open spec fn stop_announcement(user: Seq<char>) -> Seq<char> {
    "<@"@ + user + "> has stopped the daily game of Similarium"@
}

/// Stops the daily game of a channel: the stored channel becomes inactive,
/// with the announcement to post; a channel never registered is refused.
pub fn stop_games_on_channel(existing: Option<Channel>, user_id: &str) -> (r: Result<(Channel, String), SimilariumError>)
    ensures
        existing is None <==> r is Err,
        r matches Err(e) ==> e.error_type == SimilariumErrorType::ValidationError && (e.message matches Some(m) && m@ == no_game_message()),
        r matches Ok(p) ==> existing matches Some(c) && p.0 == (Channel { active: false, ..c })
            && p.1@ == stop_announcement(user_id@),
{
    proof {
        reveal_strlit(":no_entry_sign: No game is registered for the channel, did you mean to run \"start\"?");
        reveal_strlit("<@");
        reveal_strlit("> has stopped the daily game of Similarium");
    }
    match existing {
        None => Err(SimilariumError::validation(String::from_str(
            ":no_entry_sign: No game is registered for the channel, did you mean to run \"start\"?",
        ))),
        Some(c) => {
            let mut message = String::from_str("<@");
            message.append(user_id);
            message.append("> has stopped the daily game of Similarium");
            Ok((Channel { active: false, ..c }, message))
        },
    }
}

/// Whether `c` is an active channel scheduled at `hour:minute`.
pub open spec fn is_due(c: Channel, hour: i32, minute: i32) -> bool {
    c.active && c.hour == hour && c.minute == minute
}

/// The positions of the active channels scheduled at `hour:minute`, in order.
pub fn get_channels_for_hour_minute(channels: &Vec<Channel>, hour: i32, minute: i32) -> (r: Vec<usize>)
    ensures
        forall|k: int| 0 <= k < r@.len() ==> (#[trigger] r@[k]) < channels@.len() && is_due(channels@[r@[k] as int], hour, minute),
        forall|a: int, b: int| 0 <= a < b < r@.len() ==> #[trigger] r@[a] < #[trigger] r@[b],
        forall|i: int| 0 <= i < channels@.len() && is_due(#[trigger] channels@[i], hour, minute) ==> r@.contains(i as usize),
{
    let mut out: Vec<usize> = Vec::new();
    let mut i: usize = 0;
    while i < channels.len()
        invariant
            i <= channels@.len(),
            forall|k: int| 0 <= k < out@.len() ==> (#[trigger] out@[k]) < i && is_due(channels@[out@[k] as int], hour, minute),
            forall|a: int, b: int| 0 <= a < b < out@.len() ==> #[trigger] out@[a] < #[trigger] out@[b],
            forall|j: int| 0 <= j < i && is_due(#[trigger] channels@[j], hour, minute) ==> out@.contains(j as usize),
        decreases channels@.len() - i,
    {
        let c = &channels[i];
        if c.active && c.hour == hour && c.minute == minute {
            let ghost before = out@;
            out.push(i);
            proof {
                assert forall|j: int| 0 <= j < i + 1 && is_due(#[trigger] channels@[j], hour, minute) implies out@.contains(j as usize) by {
                    if j < i {
                        let m = choose|m: int| 0 <= m < before.len() && before[m] == j as usize;
                        assert(out@[m] == j as usize);
                    } else {
                        assert(out@[out@.len() - 1] == j as usize);
                    }
                }
            }
        }
        i = i + 1;
    }
    out
}

/// What the scheduled rollover of a channel does with its active games:
/// a game nobody played is kept and no new game starts; the others end.
pub struct Rollover {
    /// Positions of the games to end.
    pub end: Vec<usize>,
    /// Positions of the games kept because nobody guessed.
    pub idle: Vec<usize>,
    /// Whether a new game starts.
    pub start_new: bool,
}

/// Whether the rollover plan `end` / `idle` says what to do with game `i`.
pub open spec fn planned(end: Seq<usize>, idle: Seq<usize>, i: int) -> bool {
    end.contains(i as usize) || idle.contains(i as usize)
}

/// `end`, `idle` and `start_new` describe the rollover of the active
/// games `games` of a channel: each game is ended if somebody played it and
/// kept otherwise, each position listed once in increasing order, and a new
/// game starts exactly when no game is kept.
pub open spec fn is_rollover_plan(games: Seq<Game>, end: Seq<usize>, idle: Seq<usize>, start_new: bool) -> bool {
    &&& forall|k: int| 0 <= k < end.len() ==> (#[trigger] end[k]) < games.len() && games[end[k] as int].guesses().len() > 0
    &&& forall|k: int| 0 <= k < idle.len() ==> (#[trigger] idle[k]) < games.len() && games[idle[k] as int].guesses().len() == 0
    &&& forall|a: int, b: int| 0 <= a < b < end.len() ==> #[trigger] end[a] < #[trigger] end[b]
    &&& forall|a: int, b: int| 0 <= a < b < idle.len() ==> #[trigger] idle[a] < #[trigger] idle[b]
    &&& forall|i: int| 0 <= i < games.len() ==> #[trigger] planned(end, idle, i)
    &&& start_new <==> idle.len() == 0
}

/// A channel keeps at most one active game: when it had at most one before
/// the rollover, the games active after it (those kept, and the new one if
/// one starts) are at most one.
pub proof fn law_rollover_keeps_one_active_game(games: Seq<Game>, end: Seq<usize>, idle: Seq<usize>, start_new: bool)
    requires
        games.len() <= 1,
        is_rollover_plan(games, end, idle, start_new),
    ensures
        idle.len() + (if start_new { 1int } else { 0int }) <= 1,
{
    if idle.len() >= 2 {
        assert(idle[0] < idle[1]);
        assert(idle[1] < games.len());
    }
}

/// Plans the scheduled rollover of a channel's active games.
pub fn plan_rollover(games: &Vec<Game>) -> (r: Rollover)
    ensures
        is_rollover_plan(games@, r.end@, r.idle@, r.start_new),
{
    let mut end: Vec<usize> = Vec::new();
    let mut idle: Vec<usize> = Vec::new();
    let mut i: usize = 0;
    while i < games.len()
        invariant
            i <= games@.len(),
            forall|k: int| 0 <= k < end@.len() ==> (#[trigger] end@[k]) < i && games@[end@[k] as int].guesses().len() > 0,
            forall|k: int| 0 <= k < idle@.len() ==> (#[trigger] idle@[k]) < i && games@[idle@[k] as int].guesses().len() == 0,
            forall|a: int, b: int| 0 <= a < b < end@.len() ==> #[trigger] end@[a] < #[trigger] end@[b],
            forall|a: int, b: int| 0 <= a < b < idle@.len() ==> #[trigger] idle@[a] < #[trigger] idle@[b],
            forall|j: int| 0 <= j < i ==> #[trigger] planned(end@, idle@, j),
        decreases games@.len() - i,
    {
        let ghost (e0, i0) = (end@, idle@);
        if games[i].get_guess_count() == 0 {
            idle.push(i);
        } else {
            end.push(i);
        }
        proof {
            assert forall|j: int| 0 <= j < i + 1 implies #[trigger] planned(end@, idle@, j) by {
                if j < i {
                    assert(planned(e0, i0, j));
                    if e0.contains(j as usize) {
                        let m = choose|m: int| 0 <= m < e0.len() && e0[m] == j as usize;
                        assert(end@[m] == j as usize);
                    } else {
                        let m = choose|m: int| 0 <= m < i0.len() && i0[m] == j as usize;
                        assert(idle@[m] == j as usize);
                    }
                } else if end@.len() > e0.len() {
                    assert(end@[end@.len() - 1] == j as usize);
                } else {
                    assert(idle@[idle@.len() - 1] == j as usize);
                }
            }
        }
        i = i + 1;
    }
    let start_new = idle.len() == 0;
    Rollover { end, idle, start_new }
}

} // verus!
