use vstd::prelude::*;
use crate::blocks::{Block, BlockType, GuessContext};
use crate::dates::{get_header_text, header_text_of};
use crate::display::{decimal, decimal_of, get_medal, medal_of};
use crate::game::{Game, GameWinnerAssociation, Guess};
use crate::models::{GuessContextOrder, User};

verus! {

/// Whether entry `i` of the ledger is listed before entry `j` in `order`:
/// by rank ascending or by submission time descending, ties by position.
pub open spec fn listed_before(s: Seq<Guess>, order: GuessContextOrder, i: int, j: int) -> bool {
    match order {
        GuessContextOrder::Rank => s[i].rank < s[j].rank || (s[i].rank == s[j].rank && i < j),
        GuessContextOrder::GuessUpdated => s[i].updated > s[j].updated || (s[i].updated
            == s[j].updated && i < j),
    }
}

/// `picked` lists the first `picked.len()` entries of the ledger `s` in
/// `order`: distinct positions, each listed before the next, and every
/// position left out listed after all of them.
pub open spec fn is_listing(s: Seq<Guess>, order: GuessContextOrder, picked: Seq<int>) -> bool {
    &&& forall|a: int| 0 <= a < picked.len() ==> 0 <= #[trigger] picked[a] < s.len()
    &&& forall|a: int, b: int|
        0 <= a < b < picked.len() ==> listed_before(s, order, #[trigger] picked[a], #[trigger] picked[b])
    &&& forall|a: int, j: int|
        0 <= a < picked.len() && 0 <= j < s.len() && !picked.contains(j) ==> #[trigger] listed_before(
            s,
            order,
            picked[a],
            j,
        )
}

/// The rank as a signed number, capped at `i64::MAX`.
pub open spec fn signed_rank(rank: u64) -> i64 {
    if rank > i64::MAX as u64 {
        i64::MAX
    } else {
        rank as i64
    }
}

/// The user with id `id` among `users`, the first one if several.
pub open spec fn find_user(users: Seq<User>, id: Seq<char>) -> Option<User>
    decreases users.len(),
{
    if users.len() == 0 {
        None
    } else if users[0].id@ == id {
        Some(users[0])
    } else {
        find_user(users.drop_first(), id)
    }
}

/// `c` describes the ledger entry `g`, credited as `order` says to a user
/// found among `users` (shown with empty name and picture if absent).
pub open spec fn describes(c: GuessContext, g: Guess, order: GuessContextOrder, users: Seq<User>) -> bool {
    let credited = match order {
        GuessContextOrder::Rank => g.user_id@,
        GuessContextOrder::GuessUpdated => g.latest_guess_user_id@,
    };
    &&& c.guess_num == signed_rank(g.guess_num)
    &&& c.word == g.word
    &&& c.rank == signed_rank(g.rank)
    &&& c.similarity == g.similarity
    &&& c.is_secret == (g.rank == 0)
    &&& match find_user(users, credited) {
        Some(u) => c.username == u.username && c.profile_photo == u.profile_photo,
        None => c.username@.len() == 0 && c.profile_photo@.len() == 0,
    }
}

fn signed(n: u64) -> (r: i64)
    ensures
        r == signed_rank(n),
{
    if n > 0x7fff_ffff_ffff_ffff {
        0x7fff_ffff_ffff_ffff
    } else {
        n as i64
    }
}

/// The user with id `id` among `users`.
fn lookup_user<'a>(users: &'a Vec<User>, id: &String) -> (r: Option<&'a User>)
    ensures
        match r {
            Some(u) => find_user(users@, id@) == Some(*u),
            None => find_user(users@, id@) is None,
        },
{
    let mut i: usize = 0;
    assert(users@.subrange(0, users@.len() as int) =~= users@);
    while i < users.len()
        invariant
            i <= users@.len(),
            find_user(users@, id@) == find_user(users@.subrange(i as int, users@.len() as int), id@),
        decreases users@.len() - i,
    {
        assert(users@.subrange(i as int, users@.len() as int).drop_first() =~= users@.subrange(
            i + 1,
            users@.len() as int,
        ));
        if users[i].id == *id {
            return Some(&users[i]);
        }
        i = i + 1;
    }
    None
}

/// Whether entry `i` comes before entry `j` in `order`.
fn comes_before(s: &Vec<Guess>, order: GuessContextOrder, i: usize, j: usize) -> (r: bool)
    requires
        i < s@.len(),
        j < s@.len(),
    ensures
        r == listed_before(s@, order, i as int, j as int),
{
    match order {
        GuessContextOrder::Rank => s[i].rank < s[j].rank || (s[i].rank == s[j].rank && i < j),
        GuessContextOrder::GuessUpdated => s[i].updated > s[j].updated || (s[i].updated
            == s[j].updated && i < j),
    }
}

proof fn lemma_listed_before_total(s: Seq<Guess>, order: GuessContextOrder, i: int, j: int, k: int)
    ensures
        i != j ==> (listed_before(s, order, i, j) || listed_before(s, order, j, i)),
        !listed_before(s, order, i, i),
        listed_before(s, order, i, j) && listed_before(s, order, j, k) ==> listed_before(s, order, i, k),
{
}

/// The positions of the first `count` entries of `s` in `order`.
fn top_positions(s: &Vec<Guess>, order: GuessContextOrder, count: usize) -> (r: Vec<usize>)
    ensures
        r@.len() == if count < s@.len() { count as int } else { s@.len() as int },
        is_listing(s@, order, r@.map_values(|p: usize| p as int)),
{
    let n = s.len();
    let want = if count < n { count } else { n };
    let mut taken: Vec<bool> = Vec::new();
    let mut i: usize = 0;
    while i < n
        invariant
            i <= n,
            n == s@.len(),
            taken@.len() == i,
            forall|k: int| 0 <= k < i ==> !taken@[k],
        decreases n - i,
    {
        taken.push(false);
        i = i + 1;
    }
    let mut picked: Vec<usize> = Vec::new();
    while picked.len() < want
        invariant
            want <= n,
            n == s@.len(),
            taken@.len() == n,
            picked@.len() <= want,
            forall|k: int| 0 <= k < n ==> (taken@[k] <==> picked@.map_values(|p: usize| p as int).contains(k)),
            is_listing(s@, order, picked@.map_values(|p: usize| p as int)),
        decreases want - picked@.len(),
    {
        let ghost ps = picked@.map_values(|p: usize| p as int);
        // some position is still free, since fewer than n are taken
        let mut best: usize = n;
        let mut j: usize = 0;
        while j < n
            invariant
                j <= n,
                n == s@.len(),
                taken@.len() == n,
                best == n || (best < j && !taken@[best as int]),
                best == n ==> forall|k: int| 0 <= k < j ==> taken@[k],
                best < n ==> forall|k: int| 0 <= k < j && !taken@[k] && k != best ==> listed_before(s@, order, best as int, k),
            decreases n - j,
        {
            if !taken[j] {
                if best == n || comes_before(s, order, j, best) {
                    proof {
                        if best != n {
                            assert forall|k: int| 0 <= k < j && !taken@[k] && k != j implies listed_before(s@, order, j as int, k) by {
                                if k != best {
                                    lemma_listed_before_total(s@, order, j as int, best as int, k);
                                }
                            }
                        }
                    }
                    best = j;
                } else {
                    proof {
                        lemma_listed_before_total(s@, order, best as int, j as int, j as int);
                    }
                }
            }
            j = j + 1;
        }
        proof {
            if best == n {
                // every position is taken, so all n are picked: impossible below `want`
                assert forall|k: int| 0 <= k < n implies ps.contains(k) by {
                    assert(taken@[k]);
                }
                let positions = Seq::new(n as nat, |k: int| k);
                assert forall|k: int| 0 <= k < positions.len() implies ps.contains(#[trigger] positions[k]) by {
                    assert(taken@[k]);
                }
                lemma_no_dup_listing(s@, order, ps);
                positions.unique_seq_to_set();
                vstd::seq_lib::seq_to_set_is_finite(ps);
                assert(positions.to_set().subset_of(ps.to_set()));
                vstd::set_lib::lemma_len_subset(positions.to_set(), ps.to_set());
                ps.unique_seq_to_set();
                assert(false);
            }
        }
        taken.set(best, true);
        picked.push(best);
        proof {
            let np = picked@.map_values(|p: usize| p as int);
            assert(np =~= ps.push(best as int));
            assert forall|a: int, b: int| 0 <= a < b < np.len() implies listed_before(s@, order, #[trigger] np[a], #[trigger] np[b]) by {
                if b == np.len() - 1 {
                    assert(!ps.contains(best as int));
                }
            }
            assert forall|a: int, k: int|
                0 <= a < np.len() && 0 <= k < s@.len() && !np.contains(k) implies #[trigger] listed_before(s@, order, np[a], k) by {
                assert(!ps.contains(k)) by {
                    if ps.contains(k) {
                        let z = choose|z: int| 0 <= z < ps.len() && ps[z] == k;
                        assert(np[z] == k);
                    }
                }
                assert(np[np.len() - 1] == best as int);
                assert(k != best);
                if a < ps.len() {
                } else {
                    assert(!taken@[k] || k == best);
                }
            }
            assert forall|k: int| 0 <= k < n implies (taken@[k] <==> np.contains(k)) by {
                if k == best {
                    assert(np[np.len() - 1] == k);
                } else if np.contains(k) {
                    let z = choose|z: int| 0 <= z < np.len() && np[z] == k;
                    assert(ps[z] == k);
                } else if ps.contains(k) {
                    let z = choose|z: int| 0 <= z < ps.len() && ps[z] == k;
                    assert(np[z] == k);
                }
            }
        }
    }
    picked
}

proof fn lemma_no_dup_listing(s: Seq<Guess>, order: GuessContextOrder, ps: Seq<int>)
    requires
        forall|a: int, b: int|
            0 <= a < b < ps.len() ==> listed_before(s, order, #[trigger] ps[a], #[trigger] ps[b]),
    ensures
        ps.no_duplicates(),
{
    assert forall|a: int, b: int| 0 <= a < ps.len() && 0 <= b < ps.len() && a != b implies ps[a] != ps[b] by {
        if a < b {
            lemma_listed_before_total(s, order, ps[a], ps[a], ps[a]);
        } else {
            lemma_listed_before_total(s, order, ps[b], ps[b], ps[b]);
        }
    }
}

impl Game {
    /// The first `count` guesses in `order`, each with the name and picture
    /// of the user it is credited to.
    pub fn get_guess_contexts(&self, order: GuessContextOrder, count: usize, users: &Vec<User>) -> (r: Vec<GuessContext>)
        ensures
            exists|picked: Seq<int>|
                #![trigger is_listing(self.guesses(), order, picked)]
                is_listing(self.guesses(), order, picked)
                && picked.len() == r@.len()
                && r@.len() == (if count < self.guesses().len() { count as int } else { self.guesses().len() as int })
                && forall|a: int| 0 <= a < r@.len() ==> describes(#[trigger] r@[a], self.guesses()[picked[a]], order, users@),
    {
        let guesses = self.get_guesses();
        let picked = top_positions(guesses, order, count);
        let ghost ps = picked@.map_values(|p: usize| p as int);
        let mut out: Vec<GuessContext> = Vec::new();
        let mut a: usize = 0;
        while a < picked.len()
            invariant
                a <= picked@.len(),
                guesses@ == self.guesses(),
                ps == picked@.map_values(|p: usize| p as int),
                is_listing(guesses@, order, ps),
                out@.len() == a,
                forall|b: int| 0 <= b < a ==> describes(#[trigger] out@[b], guesses@[ps[b]], order, users@),
            decreases picked@.len() - a,
        {
            assert(ps[a as int] == picked@[a as int] as int);
            let g = &guesses[picked[a]];
            let credited = match order {
                GuessContextOrder::Rank => &g.user_id,
                GuessContextOrder::GuessUpdated => &g.latest_guess_user_id,
            };
            let (username, profile_photo) = match lookup_user(users, credited) {
                Some(u) => (u.username.clone(), u.profile_photo.clone()),
                None => (String::new(), String::new()),
            };
            out.push(GuessContext {
                guess_num: signed(g.guess_num),
                word: g.word.clone(),
                username,
                profile_photo,
                rank: signed(g.rank),
                similarity: g.similarity,
                is_secret: g.rank == 0,
            });
            a = a + 1;
        }
        out
    }
}

/// The line that lists the `idx`-th winner (from 0).
pub open spec fn winner_line(idx: nat, w: GameWinnerAssociation) -> Seq<char> {
    medal_of(idx) + " <@"@ + w.user_id@ + "> on guess "@ + decimal_of(w.guess_idx as nat)
}

/// The lines of the summary under a game's title: the guess count while it
/// runs or the secret once it is over, then the winners if there are any,
/// or a note that nobody won a finished game.
pub open spec fn header_lines(game: Game) -> Seq<Seq<char>> {
    let first = if game.active {
        "*Guesses*: "@ + decimal_of(game.guesses().len())
    } else {
        "The secret was *"@ + game.secret@ + "* :tada:"@
    };
    let ws = game.winners();
    if ws.len() > 0 {
        seq![first, "*Winners*"@] + Seq::new(ws.len(), |i: int| winner_line(i as nat, ws[i]))
    } else if !game.active {
        seq![first, "*No winners*"@]
    } else {
        seq![first]
    }
}

/// Lines joined with a newline between each two.
pub open spec fn joined(lines: Seq<Seq<char>>) -> Seq<char>
    decreases lines.len(),
{
    if lines.len() == 0 {
        Seq::empty()
    } else if lines.len() == 1 {
        lines[0]
    } else {
        joined(lines.drop_last()) + seq!['\n'] + lines.last()
    }
}

/// Joins lines with newlines.
fn join_lines(lines: &Vec<String>) -> (r: String)
    ensures
        r@ == joined(lines@.map_values(|l: String| l@)),
{
    let ghost all = lines@.map_values(|l: String| l@);
    let mut out = String::new();
    let mut i: usize = 0;
    while i < lines.len()
        invariant
            i <= lines@.len(),
            all == lines@.map_values(|l: String| l@),
            out@ == joined(all.subrange(0, i as int)),
        decreases lines@.len() - i,
    {
        let ghost prev = out@;
        if i > 0 {
            out.append("\n");
        }
        out.append(lines[i].as_str());
        proof {
            reveal_strlit("\n");
            assert("\n"@ =~= seq!['\n']);
            assert(all.subrange(0, i + 1).drop_last() =~= all.subrange(0, i as int));
            assert(all.subrange(0, i + 1).last() == all[i as int]);
            if i == 0 {
                assert(out@ =~= all[0]);
            } else {
                assert(out@ =~= prev + seq!['\n'] + all[i as int]);
            }
        }
        i = i + 1;
    }
    assert(all.subrange(0, i as int) =~= all);
    out
}

/// The summary under a game's title, as `header_lines` gives it.
pub fn get_header_body(game: &Game) -> (r: String)
    ensures
        r@ == joined(header_lines(*game)),
{
    proof {
        reveal_strlit("*Guesses*: ");
        reveal_strlit("The secret was *");
        reveal_strlit("* :tada:");
        reveal_strlit("*Winners*");
        reveal_strlit("*No winners*");
        reveal_strlit(" <@");
        reveal_strlit("> on guess ");
    }
    let mut lines: Vec<String> = Vec::new();
    let first = if game.active {
        let mut l = String::from_str("*Guesses*: ");
        l.append(decimal(game.get_guess_count()).as_str());
        l
    } else {
        let mut l = String::from_str("The secret was *");
        l.append(game.secret.as_str());
        l.append("* :tada:");
        l
    };
    lines.push(first);
    let winners = game.get_winners();
    if winners.len() > 0 {
        lines.push(String::from_str("*Winners*"));
        let mut i: usize = 0;
        while i < winners.len()
            invariant
                i <= winners@.len(),
                winners@ == game.winners(),
                lines@.len() == 2 + i,
                lines@.map_values(|l: String| l@) =~= header_lines(*game).subrange(0, 2 + i),
            decreases winners@.len() - i,
        {
            let w = &winners[i];
            let mut line = get_medal(i);
            line.append(" <@");
            line.append(w.user_id.as_str());
            line.append("> on guess ");
            line.append(decimal(w.guess_idx).as_str());
            lines.push(line);
            i = i + 1;
            assert(lines@.map_values(|l: String| l@) =~= header_lines(*game).subrange(0, 2 + i));
        }
    } else if !game.active {
        lines.push(String::from_str("*No winners*"));
    }
    assert(lines@.map_values(|l: String| l@) =~= header_lines(*game));
    join_lines(&lines)
}

/// The version shown in the help message.
pub const PACKAGE_VERSION: &'static str = "0.1.0";

/// The help text on starting a daily puzzle.
pub const HELP_START: &'static str = "*Start a daily puzzle at a specific time*\nStart posting a daily puzzle at the provided time on the current channel. The time has to be in 24-hour format, like \"13:00\" for example.\nThe time will be based on your timezone.\nThe puzzle will be posted at the start of the hour.\n_Please note that the daily game is posted at the start of every hour, so if you specify 13:45, it will be posted at 13:00_";

/// The help text on stopping the daily puzzle.
pub const HELP_STOP: &'static str = "*Stop posting the daily puzzle*\nStop posting a daily puzzle if there is one";

/// The help message: a greeting, how to start and stop the daily puzzle,
/// and the version.
pub fn get_help_blocks() -> (r: Vec<Block>)
    ensures
        r@.len() == 4,
        r@[0].is_section("Hello there :wave: here's what you can do!"@, None),
        r@[1].is_section(HELP_START@, Some(seq!["Start a daily puzzle"@, "`/similarium start [time]`"@])),
        r@[2].is_section(HELP_STOP@, Some(seq!["Stop a daily puzzle"@, "`/similarium stop`"@])),
        r@[3].is_section("*About*"@, Some(seq!["Version"@, PACKAGE_VERSION@])),
{
    let mut blocks: Vec<Block> = Vec::new();
    blocks.push(Block::section("Hello there :wave: here's what you can do!", None));
    let start_fields = vec!["Start a daily puzzle", "`/similarium start [time]`"];
    assert(start_fields@.map_values(|f: &str| f@) =~= seq!["Start a daily puzzle"@, "`/similarium start [time]`"@]);
    blocks.push(Block::section(HELP_START, Some(start_fields)));
    let stop_fields = vec!["Stop a daily puzzle", "`/similarium stop`"];
    assert(stop_fields@.map_values(|f: &str| f@) =~= seq!["Stop a daily puzzle"@, "`/similarium stop`"@]);
    blocks.push(Block::section(HELP_STOP, Some(stop_fields)));
    let about_fields = vec!["Version", PACKAGE_VERSION];
    assert(about_fields@.map_values(|f: &str| f@) =~= seq!["Version"@, PACKAGE_VERSION@]);
    blocks.push(Block::section("*About*", Some(about_fields)));
    blocks
}

/// How many guesses a listing of at most `limit` entries shows for `n` guesses.
pub open spec fn listed(n: nat, limit: nat) -> nat {
    if n < limit {
        n
    } else {
        limit
    }
}

/// The number of blocks of a game's message.
pub open spec fn game_block_count(n: nat, active: bool) -> nat {
    let guesses_part = if n > 0 {
        (if active { 1 + listed(n, 3) } else { 0 }) + 1 + listed(n, 15)
    } else {
        0
    };
    2 + guesses_part + if active { 1nat } else { 0nat }
}

/// Appends a context block for each listed guess.
fn push_contexts(blocks: &mut Vec<Block>, base_id: &str, contexts: Vec<GuessContext>, game_active: bool)
    requires
        forall|i: int| 0 <= i < contexts@.len() ==> (#[trigger] contexts@[i]).rank >= 0,
    ensures
        final(blocks)@.len() == old(blocks)@.len() + contexts@.len(),
        final(blocks)@.subrange(0, old(blocks)@.len() as int) == old(blocks)@,
        forall|i: int|
            old(blocks)@.len() <= i < final(blocks)@.len() ==> (#[trigger] final(blocks)@[i]).kind
                == BlockType::Context,
{
    let ghost start = blocks@;
    // take the contexts off the back, then push them back in their order
    let mut rest = contexts;
    let n = rest.len();
    let mut reversed: Vec<GuessContext> = Vec::new();
    while rest.len() > 0
        invariant
            reversed@.len() + rest@.len() == n,
            forall|i: int| 0 <= i < rest@.len() ==> (#[trigger] rest@[i]).rank >= 0,
            forall|i: int| 0 <= i < reversed@.len() ==> (#[trigger] reversed@[i]).rank >= 0,
        decreases rest@.len(),
    {
        let c = rest.pop().unwrap();
        reversed.push(c);
    }
    while reversed.len() > 0
        invariant
            blocks@.len() == start.len() + (n - reversed@.len()),
            blocks@.subrange(0, start.len() as int) == start,
            reversed@.len() <= n,
            forall|i: int| 0 <= i < reversed@.len() ==> (#[trigger] reversed@[i]).rank >= 0,
            forall|i: int| start.len() <= i < blocks@.len() ==> (#[trigger] blocks@[i]).kind == BlockType::Context,
        decreases reversed@.len(),
    {
        let c = reversed.pop().unwrap();
        let ghost before = blocks@;
        blocks.push(Block::guess_context(base_id, c, game_active));
        assert(blocks@.subrange(0, start.len() as int) =~= before.subrange(0, start.len() as int));
    }
}

/// The blocks of a game's message: the title, the summary, while the game
/// runs the three latest guesses, then the fifteen best guesses, and while
/// the game runs the input for new guesses.
pub fn get_game_blocks(game: &Game, users: &Vec<User>) -> (r: Vec<Block>)
    ensures
        r@.len() == game_block_count(game.guesses().len(), game.active),
        r@[0].kind == BlockType::Header,
        r@[0].text matches Some(t) && t.text@ == header_text_of(game.date as int, game.puzzle_number as int),
        r@[1].is_section(joined(header_lines(*game)), None),
        game.guesses().len() > 0 && game.active ==> r@[2].is_section("*Latest guesses*"@, None),
        game.guesses().len() > 0 ==> r@[(r@.len() - listed(game.guesses().len(), 15) - 1 - if game.active { 1int } else { 0int })].is_section("*Top guesses*"@, None),
        game.active ==> r@[r@.len() - 1].kind == BlockType::Input,
{
    let title = get_header_text(game.date, game.puzzle_number);
    let body = get_header_body(game);
    let count = game.get_guess_count();
    let mut blocks: Vec<Block> = Vec::new();
    blocks.push(Block::header(title.as_str()));
    blocks.push(Block::section(body.as_str(), None));
    let ghost head = blocks@;
    if count > 0 {
        if game.active {
            blocks.push(Block::section("*Latest guesses*", None));
            let latest = game.get_guess_contexts(GuessContextOrder::GuessUpdated, 3, users);
            let ghost before_latest = blocks@;
            push_contexts(&mut blocks, "latest", latest, game.active);
            assert(blocks@[0] == blocks@.subrange(0, before_latest.len() as int)[0]);
            assert(blocks@[1] == blocks@.subrange(0, before_latest.len() as int)[1]);
            assert(blocks@[2] == blocks@.subrange(0, before_latest.len() as int)[2]);
        }
        let ghost before_top = blocks@;
        blocks.push(Block::section("*Top guesses*", None));
        let top = game.get_guess_contexts(GuessContextOrder::Rank, 15, users);
        push_contexts(&mut blocks, "top", top, game.active);
        assert(blocks@[0] == blocks@.subrange(0, before_top.len() as int)[0]);
        assert(blocks@[1] == blocks@.subrange(0, before_top.len() as int)[1]);
        assert(game.active ==> blocks@[2] == blocks@.subrange(0, before_top.len() as int)[2]);
        assert(blocks@[before_top.len() as int] == blocks@.subrange(0, before_top.len() as int + 1)[before_top.len() as int]);
    }
    if game.active {
        blocks.push(Block::guess_input());
    }
    blocks
}

} // verus!
