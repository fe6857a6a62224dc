use vstd::prelude::*;
use rand::seq::SliceRandom;
use rand_pcg::Pcg64;
use rand_seeder::Seeder;

verus! {

broadcast use vstd::seq_lib::group_to_multiset_ensures;

/// The order in which a `Pcg64` generator seeded from `seed` through
/// `rand_seeder` shuffles `items`.
pub uninterp spec fn seeded_shuffle_of(seed: Seq<char>, items: Seq<usize>) -> Seq<usize>;

/// Relies on `rand_seeder::Seeder::from(seed).make_rng::<Pcg64>()` and
/// `SliceRandom::shuffle`: the items permuted in an order fixed by the seed
/// and the items.
#[verifier::external_body]
fn seeded_shuffle(seed: &str, items: &mut Vec<usize>)
    ensures
        final(items)@ == seeded_shuffle_of(seed@, old(items)@),
        final(items)@.to_multiset() == old(items)@.to_multiset(),
{
    let mut rng: Pcg64 = Seeder::from(seed).make_rng();
    items.shuffle(&mut rng);
}

/// The positions `0..n` in order.
pub open spec fn positions(n: nat) -> Seq<usize> {
    Seq::new(n, |i: int| i as usize)
}

/// The secret of puzzle `puzzle_number` in a channel seeded by `seed`: the
/// candidate list shuffled by the seed, indexed at the puzzle number modulo
/// the list's length.
pub open spec fn shuffled_secret(words: Seq<Seq<char>>, seed: Seq<char>, puzzle_number: nat) -> Seq<char> {
    words[seeded_shuffle_of(seed, positions(words.len()))[(puzzle_number % words.len()) as int] as int]
}

/// The secret word of puzzle `puzzle_number` for the channel seed `seed`.
pub fn get_secret(seed: &str, puzzle_number: i64, words: &Vec<String>) -> (r: String)
    requires
        words@.len() > 0,
        puzzle_number >= 0,
    ensures
        r@ == shuffled_secret(words@.map_values(|w: String| w@), seed@, puzzle_number as nat),
{
    let n = words.len();
    let mut order: Vec<usize> = Vec::new();
    let mut i: usize = 0;
    while i < n
        invariant
            i <= n,
            n == words@.len(),
            order@ =~= positions(i as nat),
        decreases n - i,
    {
        order.push(i);
        i = i + 1;
    }
    let ghost before = order@;
    seeded_shuffle(seed, &mut order);
    proof {
        vstd::seq_lib::to_multiset_len(order@);
        vstd::seq_lib::to_multiset_len(before);
    }
    let k = ((puzzle_number as u64) % (n as u64)) as usize;
    let picked = order[k];
    proof {
        assert(order@[k as int] == picked);
        assert(order@.contains(picked));
        vstd::seq_lib::to_multiset_contains(order@, picked);
        vstd::seq_lib::to_multiset_contains(before, picked);
        assert(order@.to_multiset().count(picked) > 0);
        assert(before.contains(picked));
        let j = choose|j: int| 0 <= j < before.len() && before[j] == picked;
        assert(before[j] == j);
    }
    words[picked].clone()
}

} // verus!
