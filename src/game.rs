use vstd::prelude::*;
use crate::error::{SimilariumError, SimilariumErrorType};

verus! {

/// The rank that stands for "no guess yet": above every milestone bucket.
pub const NO_GUESS_RANK: u64 = 1001;

/// Guesses without progress after which a taunt becomes possible.
pub const TAUNT_THRESHOLD: u64 = 40;

/// One distinct word guessed in a game.
#[derive(Debug, PartialEq, Eq)]
pub struct Guess {
    /// The normalized word.
    pub word: String,
    /// Position of the word by closeness to the secret; 0 is the secret.
    pub rank: u64,
    /// Closeness to the secret, in millionths.
    pub similarity: i64,
    /// Order of first submission within the game, from 1.
    pub guess_num: u64,
    /// The user who first submitted the word.
    pub user_id: String,
    /// The user who submitted the word most recently.
    pub latest_guess_user_id: String,
    /// Time of the latest submission, in milliseconds.
    pub updated: i64,
}

impl Guess {
    /// Whether this guess is the secret itself.
    pub fn is_secret(&self) -> (r: bool)
        ensures
            r == (self.rank == 0),
    {
        self.rank == 0
    }

    /// A copy of this guess.
    pub fn snapshot(&self) -> (r: Guess)
        ensures
            r == *self,
    {
        Guess {
            word: self.word.clone(),
            rank: self.rank,
            similarity: self.similarity,
            guess_num: self.guess_num,
            user_id: self.user_id.clone(),
            latest_guess_user_id: self.latest_guess_user_id.clone(),
            updated: self.updated,
        }
    }
}

/// A user who found the secret of a game.
#[derive(Debug, PartialEq, Eq)]
pub struct GameWinnerAssociation {
    pub game_id: u128,
    pub user_id: String,
    /// The guess number credited to the win.
    pub guess_idx: u64,
    /// Time of the win, in milliseconds.
    pub created: i64,
}

/// What the oracle says of a word: its rank and closeness to the secret.
#[derive(Debug, Clone, Copy, PartialEq, Eq)]
pub struct Similarity {
    pub rank: u64,
    /// Closeness to the secret, in millionths.
    pub similarity: i64,
}

/// A notification that a submission gives rise to.
#[derive(Debug, PartialEq, Eq)]
pub enum GameEvent {
    /// The guess was recorded and nothing else happened.
    GuessAccepted,
    /// The game's best rank reached this bucket for the first time.
    MilestoneReached(u64),
    /// This user found the secret.
    GameWon(String),
}

/// What a notification says, with the winner as a character sequence.
pub enum EventModel {
    GuessAccepted,
    MilestoneReached(u64),
    GameWon(Seq<char>),
}

impl View for GameEvent {
    type V = EventModel;

    open spec fn view(&self) -> EventModel {
        match self {
            GameEvent::GuessAccepted => EventModel::GuessAccepted,
            GameEvent::MilestoneReached(b) => EventModel::MilestoneReached(*b),
            GameEvent::GameWon(u) => EventModel::GameWon(u@),
        }
    }
}

/// The result of a submission.
#[derive(Debug)]
pub struct GuessOutcome {
    /// The ledger entry of the word after the submission.
    pub guess: Guess,
    /// Whether the word was new to the game.
    pub is_new: bool,
    /// The notifications to send, in order.
    pub events: Vec<GameEvent>,
}

/// The words of a ledger.
pub open spec fn words_of(s: Seq<Guess>) -> Seq<Seq<char>> {
    s.map_values(|g: Guess| g.word@)
}

/// The user ids of a list of winners.
pub open spec fn winner_ids(s: Seq<GameWinnerAssociation>) -> Seq<Seq<char>> {
    s.map_values(|w: GameWinnerAssociation| w.user_id@)
}

/// The lowest rank in a ledger, if it has any guess.
pub open spec fn best_rank(s: Seq<Guess>) -> Option<u64>
    decreases s.len(),
{
    if s.len() == 0 {
        None
    } else {
        let r = s.last().rank;
        match best_rank(s.drop_last()) {
            None => Some(r),
            Some(b) => Some(if r < b { r } else { b }),
        }
    }
}

/// The best rank of a ledger, or `NO_GUESS_RANK` when it is empty.
pub open spec fn rank_or_sentinel(s: Seq<Guess>) -> u64 {
    match best_rank(s) {
        Some(r) => r,
        None => NO_GUESS_RANK,
    }
}

/// The buckets among 1000, 100 and 10 (in that order) that a guess of
/// `rank` crosses when the best rank before it was `prev`.
pub open spec fn crossed_buckets(prev: u64, rank: u64) -> Seq<u64> {
    let a = if rank <= 1000 && prev > 1000 { seq![1000u64] } else { Seq::empty() };
    let b = if rank <= 100 && prev > 100 { a.push(100u64) } else { a };
    if rank <= 10 && prev > 10 { b.push(10u64) } else { b }
}

/// The notifications of a submission by `user` of a word with `rank`,
/// given the best rank before it and whether the word was new.
pub open spec fn events_for(user: Seq<char>, prev: u64, rank: u64, is_new: bool) -> Seq<EventModel> {
    if rank == 0 {
        seq![EventModel::GameWon(user)]
    } else if is_new && crossed_buckets(prev, rank).len() > 0 {
        crossed_buckets(prev, rank).map_values(|b: u64| EventModel::MilestoneReached(b))
    } else {
        seq![EventModel::GuessAccepted]
    }
}

/// Whether a taunt fires: nobody is within the top 1000, more than
/// `TAUNT_THRESHOLD` guesses came since the last taunt, and the uniform draw
/// `draw / 2^32` exceeds `TAUNT_THRESHOLD / (1.1 * guesses_since_taunt)`.
pub open spec fn taunt_fires(guess_count: u64, taunt_index: u64, top_rank: u64, draw: u32) -> bool {
    let since = guess_count - taunt_index;
    &&& top_rank > 1000
    &&& since > TAUNT_THRESHOLD
    &&& 11 * (draw as int) * since > 10 * TAUNT_THRESHOLD * 0x1_0000_0000
}

/// Decides whether to taunt the players of a game for their lack of
/// progress, given a uniformly drawn `draw`.
pub fn should_taunt(guess_count: u64, taunt_index: u64, top_rank: u64, draw: u32) -> (r: bool)
    ensures
        r == taunt_fires(guess_count, taunt_index, top_rank, draw),
{
    if top_rank <= 1000 || guess_count < taunt_index {
        return false;
    }
    let since = guess_count - taunt_index;
    if since <= TAUNT_THRESHOLD {
        return false;
    }
    let scaled: u128 = 11u128 * (draw as u128);
    assert(scaled * (since as int) < 0x1_0000_0000_0000_0000_0000_0000_0000_0000) by (nonlinear_arith)
        requires
            scaled < 0x10_0000_0000,
            since < 0x1_0000_0000_0000_0000,
    ;
    let lhs: u128 = scaled * (since as u128);
    lhs > 10u128 * (TAUNT_THRESHOLD as u128) * 0x1_0000_0000u128
}

/// The guess number credited to a winner whose submission left the entry
/// `entry` in a ledger of `count` guesses: the entry's own number when the
/// winner first submitted the word, else the count.
pub open spec fn credited_guess(entry: Guess, user: Seq<char>, count: nat) -> int {
    if entry.user_id@ == user {
        entry.guess_num as int
    } else {
        count as int
    }
}

/// `new` is `old` after `user` submitted the normalized `word` at `now`,
/// with the oracle giving `found`, and `out` describes that submission.
pub open spec fn recorded(
    old: Game,
    new: Game,
    user: Seq<char>,
    word: Seq<char>,
    found: Similarity,
    now: i64,
    out: GuessOutcome,
) -> bool {
    let og = old.guesses();
    let ng = new.guesses();
    &&& if words_of(og).contains(word) {
        &&& ng.len() == og.len()
        &&& !out.is_new
        &&& forall|i: int|
            0 <= i < og.len() && #[trigger] og[i].word@ == word ==> {
                &&& ng[i].word == og[i].word
                &&& ng[i].rank == og[i].rank
                &&& ng[i].similarity == og[i].similarity
                &&& ng[i].guess_num == og[i].guess_num
                &&& ng[i].user_id == og[i].user_id
                &&& ng[i].latest_guess_user_id@ == user
                &&& ng[i].updated == now
                &&& out.guess == ng[i]
                &&& forall|j: int| 0 <= j < og.len() && j != i ==> ng[j] == og[j]
            }
    } else {
        &&& ng.len() == og.len() + 1
        &&& ng.drop_last() == og
        &&& ng.last().word@ == word
        &&& ng.last().rank == found.rank
        &&& ng.last().similarity == found.similarity
        &&& ng.last().guess_num == og.len() + 1
        &&& ng.last().user_id@ == user
        &&& ng.last().latest_guess_user_id@ == user
        &&& ng.last().updated == now
        &&& out.is_new
        &&& out.guess == ng.last()
    }
    &&& out.events@.map_values(|e: GameEvent| e@) == events_for(
        user,
        rank_or_sentinel(og),
        out.guess.rank,
        out.is_new,
    )
    &&& if out.guess.rank == 0 {
        &&& new.winners().len() == old.winners().len() + 1
        &&& new.winners().drop_last() == old.winners()
        &&& new.winners().last().game_id == old.id
        &&& new.winners().last().user_id@ == user
        &&& new.winners().last().guess_idx == credited_guess(out.guess, user, ng.len())
        &&& new.winners().last().created == now
    } else {
        new.winners() == old.winners()
    }
}

/// The guesses of one game, each distinct word once, and its winners.
pub struct GuessLedger {
    guesses: Vec<Guess>,
    winners: Vec<GameWinnerAssociation>,
}

impl GuessLedger {
    /// The guesses, in order of first submission.
    pub closed spec fn guesses(&self) -> Seq<Guess> {
        self.guesses@
    }

    /// The winners, in order of winning.
    pub closed spec fn winners(&self) -> Seq<GameWinnerAssociation> {
        self.winners@
    }

    /// An empty ledger.
    pub fn new() -> (r: GuessLedger)
        ensures
            r.guesses().len() == 0,
            r.winners().len() == 0,
    {
        GuessLedger { guesses: Vec::new(), winners: Vec::new() }
    }
}

/// One game: its settings and its ledger.
pub struct Game {
    pub id: u128,
    pub channel_id: String,
    pub thread_ts: Option<String>,
    pub puzzle_number: i64,
    /// Creation time, in milliseconds since the Unix epoch.
    pub date: i64,
    pub active: bool,
    pub secret: String,
    pub hint: Option<String>,
    /// The guess count at which the last taunt fired.
    pub taunt_index: u64,
    pub ledger: GuessLedger,
}

impl Game {
    /// The ledger, in order of first submission.
    pub open spec fn guesses(&self) -> Seq<Guess> {
        self.ledger.guesses()
    }

    /// The winners, in order of winning.
    pub open spec fn winners(&self) -> Seq<GameWinnerAssociation> {
        self.ledger.winners()
    }

    /// The ledger holds each word once, numbered 1, 2, ... in order, and no
    /// user has won twice.
    pub open spec fn wf(&self) -> bool {
        &&& forall|i: int|
            0 <= i < self.guesses().len() ==> #[trigger] self.guesses()[i].guess_num == i + 1
        &&& words_of(self.guesses()).no_duplicates()
        &&& winner_ids(self.winners()).no_duplicates()
    }

    /// Whether `user` has already won this game.
    pub open spec fn has_won(&self, user: Seq<char>) -> bool {
        winner_ids(self.winners()).contains(user)
    }

    /// The fields other than the ledger and the winners are those of `other`.
    pub open spec fn same_settings(&self, other: &Game) -> bool {
        &&& self.id == other.id
        &&& self.channel_id == other.channel_id
        &&& self.thread_ts == other.thread_ts
        &&& self.puzzle_number == other.puzzle_number
        &&& self.date == other.date
        &&& self.active == other.active
        &&& self.secret == other.secret
        &&& self.hint == other.hint
        &&& self.taunt_index == other.taunt_index
    }

    /// A new, active game with no guesses and no winners.
    pub fn new(id: u128, channel_id: String, puzzle_number: i64, date: i64, secret: String) -> (r: Game)
        ensures
            r.wf(),
            r.id == id,
            r.channel_id == channel_id,
            r.thread_ts is None,
            r.puzzle_number == puzzle_number,
            r.date == date,
            r.active,
            r.secret == secret,
            r.hint is None,
            r.taunt_index == 0,
            r.guesses().len() == 0,
            r.winners().len() == 0,
    {
        Game {
            id,
            channel_id,
            thread_ts: None,
            puzzle_number,
            date,
            active: true,
            secret,
            hint: None,
            taunt_index: 0,
            ledger: GuessLedger::new(),
        }
    }

    /// The number of distinct words guessed so far.
    pub fn get_guess_count(&self) -> (r: u64)
        ensures
            r == self.guesses().len(),
    {
        self.ledger.guesses.len() as u64
    }

    /// The best (lowest) rank guessed so far, if any.
    pub fn get_top_guess_rank(&self) -> (r: Option<u64>)
        ensures
            r == best_rank(self.guesses()),
    {
        let mut best: Option<u64> = None;
        let mut i: usize = 0;
        while i < self.ledger.guesses.len()
            invariant
                i <= self.ledger.guesses@.len(),
                best == best_rank(self.ledger.guesses@.subrange(0, i as int)),
            decreases self.ledger.guesses@.len() - i,
        {
            let r = self.ledger.guesses[i].rank;
            best = match best {
                None => Some(r),
                Some(b) => Some(if r < b { r } else { b }),
            };
            i = i + 1;
            assert(self.ledger.guesses@.subrange(0, i as int).drop_last() =~= self.ledger.guesses@.subrange(0, i - 1));
        }
        assert(self.ledger.guesses@.subrange(0, i as int) =~= self.ledger.guesses@);
        best
    }

    /// The guesses, in order of first submission.
    pub fn get_guesses(&self) -> (r: &Vec<Guess>)
        ensures
            r@ == self.guesses(),
    {
        &self.ledger.guesses
    }

    /// The winners, in order of winning.
    pub fn get_winners(&self) -> (r: &Vec<GameWinnerAssociation>)
        ensures
            r@ == self.winners(),
    {
        &self.ledger.winners
    }

    /// Whether `user_id` has already won this game.
    pub fn user_already_won(&self, user_id: &str) -> (r: bool)
        ensures
            r == self.has_won(user_id@),
    {
        let user = user_id.to_string();
        let mut i: usize = 0;
        while i < self.ledger.winners.len()
            invariant
                i <= self.ledger.winners@.len(),
                user@ == user_id@,
                forall|k: int| 0 <= k < i ==> self.ledger.winners@[k].user_id@ != user_id@,
            decreases self.ledger.winners@.len() - i,
        {
            if self.ledger.winners[i].user_id == user {
                assert(winner_ids(self.ledger.winners@)[i as int] == user_id@);
                return true;
            }
            i = i + 1;
        }
        assert(!winner_ids(self.ledger.winners@).contains(user_id@)) by {
            if winner_ids(self.ledger.winners@).contains(user_id@) {
                let k = choose|k: int| 0 <= k < winner_ids(self.ledger.winners@).len() && winner_ids(self.ledger.winners@)[k] == user_id@;
                assert(self.ledger.winners@[k].user_id@ == user_id@);
            }
        }
        false
    }

    /// The position of `word` in the ledger, if it was guessed.
    fn find_guess(&self, word: &String) -> (r: Option<usize>)
        ensures
            r matches Some(i) ==> i < self.ledger.guesses@.len() && self.ledger.guesses@[i as int].word@ == word@,
            r is None ==> !words_of(self.ledger.guesses@).contains(word@),
    {
        let mut i: usize = 0;
        while i < self.ledger.guesses.len()
            invariant
                i <= self.ledger.guesses@.len(),
                forall|k: int| 0 <= k < i ==> self.ledger.guesses@[k].word@ != word@,
            decreases self.ledger.guesses@.len() - i,
        {
            if self.ledger.guesses[i].word == *word {
                return Some(i);
            }
            i = i + 1;
        }
        assert(!words_of(self.ledger.guesses@).contains(word@)) by {
            if words_of(self.ledger.guesses@).contains(word@) {
                let k = choose|k: int| 0 <= k < words_of(self.ledger.guesses@).len() && words_of(self.ledger.guesses@)[k] == word@;
                assert(self.ledger.guesses@[k].word@ == word@);
            }
        }
        None
    }

    /// Records a submission by `user_id` of the normalized word `word`, for
    /// which the oracle answered `lookup`, at time `now` (milliseconds).
    ///
    /// A game that is over rejects the guess; a user who already won gets
    /// `AlreadyWon`; an oracle error is handed back unchanged. None of these
    /// touch the ledger. Otherwise a new word is appended with the next guess
    /// number, while a word already in the ledger only gets its latest
    /// submitter and time updated. A guess of rank 0 makes the user a winner;
    /// a new word that brings the game's best rank under a bucket reports
    /// each bucket crossed.
    pub fn submit_guess(
        &mut self,
        user_id: &str,
        word: String,
        lookup: Result<Similarity, SimilariumError>,
        now: i64,
    ) -> (r: Result<GuessOutcome, SimilariumError>)
        requires
            old(self).wf(),
            old(self).guesses().len() < u64::MAX,
        ensures
            final(self).wf(),
            !old(self).active ==> (r matches Err(e) && e.error_type
                == SimilariumErrorType::ValidationError),
            old(self).active && old(self).has_won(user_id@) ==> (r matches Err(e) && e.error_type
                == SimilariumErrorType::AlreadyWon),
            old(self).active && !old(self).has_won(user_id@) && lookup is Err ==> (r matches Err(e)
                && lookup matches Err(l) && e == l),
            r is Err ==> *final(self) == *old(self),
            old(self).active && !old(self).has_won(user_id@) && lookup is Ok ==> r is Ok,
            r matches Ok(out) ==> (lookup matches Ok(found) && final(self).same_settings(old(self))
                && recorded(*old(self), *final(self), user_id@, word@, found, now, out)),
    {
        if !self.active {
            return Err(SimilariumError::validation(String::from_str("This game is over")));
        }
        if self.user_already_won(user_id) {
            return Err(
                SimilariumError::with_message(
                    SimilariumErrorType::AlreadyWon,
                    String::from_str("You already found the secret of this game"),
                ),
            );
        }
        let found = match lookup {
            Ok(f) => f,
            Err(e) => {
                return Err(e);
            },
        };
        let prev = match self.get_top_guess_rank() {
            Some(best) => best,
            None => NO_GUESS_RANK,
        };
        let ghost og = self.guesses();
        let user = user_id.to_string();
        let found_at = self.find_guess(&word);
        let idx: usize;
        let is_new: bool;
        match found_at {
            Some(i) => {
                let mut entry = self.ledger.guesses[i].snapshot();
                entry.latest_guess_user_id = user.clone();
                entry.updated = now;
                self.ledger.guesses.set(i, entry);
                idx = i;
                is_new = false;
                proof {
                    assert(words_of(og)[i as int] == word@);
                    assert(words_of(self.guesses()) =~= words_of(og));
                    assert forall|k: int| 0 <= k < og.len() && #[trigger] og[k].word@ == word@ implies k == i by {
                        assert(words_of(og)[k] == words_of(og)[i as int]);
                    }
                }
            },
            None => {
                let count = self.ledger.guesses.len() as u64;
                let entry = Guess {
                    word,
                    rank: found.rank,
                    similarity: found.similarity,
                    guess_num: count + 1,
                    user_id: user.clone(),
                    latest_guess_user_id: user.clone(),
                    updated: now,
                };
                self.ledger.guesses.push(entry);
                idx = self.ledger.guesses.len() - 1;
                is_new = true;
                proof {
                    assert(words_of(self.guesses()) =~= words_of(og).push(word@));
                    assert(self.guesses().drop_last() =~= og);
                }
            },
        }
        let guess = self.ledger.guesses[idx].snapshot();
        let mut events: Vec<GameEvent> = Vec::new();
        if guess.rank == 0 {
            let count = self.ledger.guesses.len() as u64;
            let credited = if guess.user_id == user {
                guess.guess_num
            } else {
                count
            };
            let ghost ow = self.winners();
            self.ledger.winners.push(
                GameWinnerAssociation {
                    game_id: self.id,
                    user_id: user.clone(),
                    guess_idx: credited,
                    created: now,
                },
            );
            events.push(GameEvent::GameWon(user));
            proof {
                assert(winner_ids(self.winners()) =~= winner_ids(ow).push(user_id@));
                assert(self.winners().drop_last() =~= ow);
            }
        } else {
            if is_new {
                if guess.rank <= 1000 && prev > 1000 {
                    events.push(GameEvent::MilestoneReached(1000));
                }
                if guess.rank <= 100 && prev > 100 {
                    events.push(GameEvent::MilestoneReached(100));
                }
                if guess.rank <= 10 && prev > 10 {
                    events.push(GameEvent::MilestoneReached(10));
                }
                assert(events@.map_values(|e: GameEvent| e@) =~= crossed_buckets(prev, guess.rank).map_values(|b: u64| EventModel::MilestoneReached(b)));
            }
            if events.len() == 0 {
                events.push(GameEvent::GuessAccepted);
            }
        }
        assert(events@.map_values(|e: GameEvent| e@) =~= events_for(user_id@, prev, guess.rank, is_new));
        Ok(GuessOutcome { guess, is_new, events })
    }

    /// Decides, from the uniform draw `draw`, whether the players get taunted
    /// now; when they do, the taunt index moves to the current guess count.
    pub fn maybe_taunt(&mut self, draw: u32) -> (r: bool)
        requires
            old(self).wf(),
        ensures
            r == taunt_fires(
                old(self).guesses().len() as u64,
                old(self).taunt_index,
                rank_or_sentinel(old(self).guesses()),
                draw,
            ),
            r ==> final(self).taunt_index == old(self).guesses().len(),
            r ==> *final(self) == (Game { taunt_index: final(self).taunt_index, ..*old(self) }),
            !r ==> *final(self) == *old(self),
    {
        let count = self.get_guess_count();
        let top = match self.get_top_guess_rank() {
            Some(best) => best,
            None => NO_GUESS_RANK,
        };
        let fire = should_taunt(count, self.taunt_index, top, draw);
        if fire {
            self.taunt_index = count;
        }
        fire
    }

    /// Draws a random number and decides with it whether to taunt the
    /// players, as `maybe_taunt` does.
    pub fn roll_taunt(&mut self) -> (r: bool)
        requires
            old(self).wf(),
        ensures
            r ==> final(self).taunt_index == old(self).guesses().len()
                && rank_or_sentinel(old(self).guesses()) > 1000
                && old(self).guesses().len() - old(self).taunt_index > TAUNT_THRESHOLD,
            r ==> *final(self) == (Game { taunt_index: final(self).taunt_index, ..*old(self) }),
            !r ==> *final(self) == *old(self),
    {
        let draw: u32 = rand::random::<u32>();
        self.maybe_taunt(draw)
    }
}

/// Relies on `rand::random`: a value drawn from the thread-local generator.
/// Nothing is known of the value.
pub assume_specification<T>[ rand::random::<T> ]() -> (r: T)
    where
        rand::distributions::Standard: rand::distributions::Distribution<T>,
;

} // verus!
