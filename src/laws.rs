use vstd::prelude::*;
use crate::game::{
    best_rank, crossed_buckets, events_for, rank_or_sentinel, recorded, winner_ids, words_of,
    EventModel, Game, GameEvent, Guess, GuessOutcome, Similarity,
};

verus! {

/// The best rank of a non-empty ledger is one of its ranks and no rank is lower.
proof fn lemma_best_rank_is_min(s: Seq<Guess>)
    ensures
        s.len() == 0 <==> best_rank(s) is None,
        best_rank(s) matches Some(b) ==> (forall|i: int| 0 <= i < s.len() ==> b <= #[trigger] s[i].rank)
            && exists|i: int| 0 <= i < s.len() && s[i].rank == b,
    decreases s.len(),
{
    if s.len() > 0 {
        lemma_best_rank_is_min(s.drop_last());
        let b = best_rank(s).unwrap();
        assert forall|i: int| 0 <= i < s.len() implies b <= #[trigger] s[i].rank by {
            if i < s.len() - 1 {
                assert(s.drop_last()[i] == s[i]);
            }
        }
        if b == s.last().rank {
            assert(s[s.len() - 1].rank == b);
        } else {
            let k = choose|k: int| 0 <= k < s.drop_last().len() && s.drop_last()[k].rank == b;
            assert(s[k].rank == b);
        }
    }
}

/// Two ledgers whose ranks agree entry by entry have the same best rank.
proof fn lemma_best_rank_same_ranks(a: Seq<Guess>, b: Seq<Guess>)
    requires
        a.len() == b.len(),
        forall|i: int| 0 <= i < a.len() ==> #[trigger] a[i].rank == b[i].rank,
    ensures
        best_rank(a) == best_rank(b),
{
    lemma_best_rank_is_min(a);
    lemma_best_rank_is_min(b);
    if a.len() > 0 {
        let x = best_rank(a).unwrap();
        let y = best_rank(b).unwrap();
        let i = choose|i: int| 0 <= i < a.len() && a[i].rank == x;
        let j = choose|j: int| 0 <= j < b.len() && b[j].rank == y;
        assert(y <= b[i].rank);
        assert(x <= a[j].rank);
    }
}

/// The best rank of a game never rises: after a submission the game has a
/// best rank, no higher than the rank of the word submitted nor than the
/// best rank before.
pub proof fn law_best_rank_never_rises(
    old: Game,
    new: Game,
    user: Seq<char>,
    word: Seq<char>,
    found: Similarity,
    now: i64,
    out: GuessOutcome,
)
    requires
        old.wf(),
        recorded(old, new, user, word, found, now, out),
    ensures
        best_rank(new.guesses()) matches Some(b) && b <= out.guess.rank && (best_rank(
            old.guesses(),
        ) matches Some(a) ==> b <= a),
{
    let og = old.guesses();
    let ng = new.guesses();
    lemma_best_rank_is_min(og);
    lemma_best_rank_is_min(ng);
    if words_of(og).contains(word) {
        let i = choose|i: int| 0 <= i < words_of(og).len() && words_of(og)[i] == word;
        assert(og[i].word@ == word);
        assert forall|k: int| 0 <= k < og.len() implies #[trigger] og[k].rank == ng[k].rank by {
            if k != i {
                assert(ng[k] == og[k]);
            }
        }
        lemma_best_rank_same_ranks(og, ng);
        assert(ng[i] == out.guess);
    } else {
        assert(ng[ng.len() - 1] == out.guess);
        if og.len() > 0 {
            let a = best_rank(og).unwrap();
            let k = choose|k: int| 0 <= k < og.len() && og[k].rank == a;
            assert(ng.drop_last()[k] == ng[k]);
        }
    }
}

/// Every word of a game's ledger is there once, so the number of guesses is
/// the number of distinct words guessed.
pub proof fn law_ledger_words_unique(game: Game)
    requires
        game.wf(),
    ensures
        words_of(game.guesses()).no_duplicates(),
        game.guesses().len() == words_of(game.guesses()).to_set().len(),
{
    words_of(game.guesses()).unique_seq_to_set();
}

/// Guess numbers run 1, 2, 3, ... in the order in which distinct words were
/// first submitted, with no gap and no repeat.
pub proof fn law_guess_numbers_consecutive(game: Game)
    requires
        game.wf(),
    ensures
        game.guesses().len() > 0 ==> game.guesses()[0].guess_num == 1,
        forall|i: int, j: int|
            0 <= i < j < game.guesses().len() ==> #[trigger] game.guesses()[i].guess_num
                < #[trigger] game.guesses()[j].guess_num,
        forall|i: int|
            0 < i < game.guesses().len() ==> #[trigger] game.guesses()[i].guess_num
                == game.guesses()[i - 1].guess_num + 1,
{
}

/// Submitting a word that is already in the ledger adds no entry and keeps
/// every word, rank, similarity and guess number; only the latest submitter
/// and time of that word change.
pub proof fn law_resubmission_keeps_ledger(
    old: Game,
    new: Game,
    user: Seq<char>,
    word: Seq<char>,
    found: Similarity,
    now: i64,
    out: GuessOutcome,
)
    requires
        old.wf(),
        recorded(old, new, user, word, found, now, out),
        words_of(old.guesses()).contains(word),
    ensures
        !out.is_new,
        new.guesses().len() == old.guesses().len(),
        forall|i: int|
            0 <= i < old.guesses().len() ==> {
                &&& (#[trigger] new.guesses()[i]).word == old.guesses()[i].word
                &&& new.guesses()[i].rank == old.guesses()[i].rank
                &&& new.guesses()[i].similarity == old.guesses()[i].similarity
                &&& new.guesses()[i].guess_num == old.guesses()[i].guess_num
                &&& new.guesses()[i].user_id == old.guesses()[i].user_id
            },
{
    let og = old.guesses();
    let i = choose|i: int| 0 <= i < words_of(og).len() && words_of(og)[i] == word;
    assert(og[i].word@ == word);
}

/// A user appears at most once among the winners of a game.
pub proof fn law_single_win_per_user(game: Game, user: Seq<char>)
    requires
        game.wf(),
    ensures
        forall|i: int, j: int|
            0 <= i < game.winners().len() && 0 <= j < game.winners().len()
                && #[trigger] game.winners()[i].user_id@ == user
                && #[trigger] game.winners()[j].user_id@ == user ==> i == j,
{
    assert forall|i: int, j: int|
        0 <= i < game.winners().len() && 0 <= j < game.winners().len()
            && #[trigger] game.winners()[i].user_id@ == user
            && #[trigger] game.winners()[j].user_id@ == user implies i == j by {
        assert(winner_ids(game.winners())[i] == winner_ids(game.winners())[j]);
    }
}

/// No submission reports reaching a bucket that the game's best rank had
/// already reached.
pub proof fn law_no_milestone_at_or_below_best(
    user: Seq<char>,
    prev: u64,
    rank: u64,
    is_new: bool,
    bucket: u64,
)
    requires
        prev <= bucket,
    ensures
        !events_for(user, prev, rank, is_new).contains(EventModel::MilestoneReached(bucket)),
{
    let c = crossed_buckets(prev, rank);
    assert forall|i: int| 0 <= i < c.len() implies #[trigger] c[i] < prev by {}
    if rank != 0 && is_new && c.len() > 0 {
        let ev = c.map_values(|b: u64| EventModel::MilestoneReached(b));
        if ev.contains(EventModel::MilestoneReached(bucket)) {
            let k = choose|k: int| 0 <= k < ev.len() && ev[k] == EventModel::MilestoneReached(bucket);
            assert(ev[k] == EventModel::MilestoneReached(c[k]));
        }
    }
}

/// Once a submission reports reaching a bucket, the next submission to the
/// game cannot report that bucket again.
pub proof fn law_milestone_fires_once(
    first: Game,
    mid: Game,
    last: Game,
    user1: Seq<char>,
    word1: Seq<char>,
    found1: Similarity,
    now1: i64,
    out1: GuessOutcome,
    user2: Seq<char>,
    word2: Seq<char>,
    found2: Similarity,
    now2: i64,
    out2: GuessOutcome,
    bucket: u64,
)
    requires
        first.wf(),
        mid.wf(),
        recorded(first, mid, user1, word1, found1, now1, out1),
        recorded(mid, last, user2, word2, found2, now2, out2),
        out1.events@.map_values(|e: GameEvent| e@).contains(EventModel::MilestoneReached(bucket)),
    ensures
        !out2.events@.map_values(|e: GameEvent| e@).contains(EventModel::MilestoneReached(bucket)),
{
    let ev = events_for(user1, rank_or_sentinel(first.guesses()), out1.guess.rank, out1.is_new);
    let c = crossed_buckets(rank_or_sentinel(first.guesses()), out1.guess.rank);
    let k = choose|k: int| 0 <= k < ev.len() && ev[k] == EventModel::MilestoneReached(bucket);
    assert(out1.guess.rank != 0);
    assert(ev[k] == EventModel::MilestoneReached(c[k]));
    assert(out1.guess.rank <= bucket);
    law_best_rank_never_rises(first, mid, user1, word1, found1, now1, out1);
    law_no_milestone_at_or_below_best(
        user2,
        rank_or_sentinel(mid.guesses()),
        out2.guess.rank,
        out2.is_new,
        bucket,
    );
}

} // verus!
