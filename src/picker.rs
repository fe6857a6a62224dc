use vstd::prelude::*;
use sha2::{Digest, Sha512};
use crate::mt::{mt19937_word, MersenneTwister};
use vstd::string::StringSliceAdditionalSpecFns;
use vstd::arithmetic::div_mod::lemma_mod_add_multiples_vanish;

verus! {

/// The SHA-512 digest of `bytes`.
pub uninterp spec fn sha512_of(bytes: Seq<u8>) -> Seq<u8>;

/// Relies on `sha2::Sha512` (`Digest::digest`): the SHA-512 digest of the
/// bytes, which is 64 bytes long.
#[verifier::external_body]
fn sha512_digest(data: &[u8]) -> (r: Vec<u8>)
    ensures
        r@ == sha512_of(data@),
        r@.len() == 64,
{
    Sha512::digest(data).to_vec()
}

/// Number of zero bytes that bring a length of `n` to a multiple of four.
pub open spec fn pad_len(n: nat) -> nat {
    if n % 4 == 0 {
        0
    } else {
        (4 - n % 4) as nat
    }
}

/// The bytes that the seeding words are read from: the seed followed by its
/// SHA-512 digest, reversed, then padded with zeros to a multiple of four.
pub open spec fn seed_buffer(seed: Seq<u8>) -> Seq<u8> {
    let b = (seed + sha512_of(seed)).reverse();
    b + Seq::new(pad_len(b.len()), |i: int| 0u8)
}

/// The little-endian value of four bytes.
pub open spec fn le_word(b0: u8, b1: u8, b2: u8, b3: u8) -> int {
    b0 + 256 * b1 + 65536 * b2 + 16777216 * b3
}

/// The generator key derived from `seed`: each four-byte group of
/// `seed_buffer(seed)` read as a little-endian `u32`.
pub open spec fn seed_key(seed: Seq<u8>) -> Seq<u32> {
    let b = seed_buffer(seed);
    Seq::new(
        b.len() / 4,
        |i: int| le_word(b[4 * i], b[4 * i + 1], b[4 * i + 2], b[4 * i + 3]) as u32,
    )
}

/// Number of bits needed to write `n` in binary.
pub open spec fn bit_length(n: nat) -> nat
    decreases n,
{
    if n == 0 {
        0
    } else {
        1 + bit_length(n / 2)
    }
}

/// The most draws a single bounded draw makes before giving up.
pub const MAX_DRAWS: u64 = 0xffff_ffff_ffff_ffff;

/// Rejection sampling from position `pos` of the stream of `key`: take the
/// top `k` bits of each word until one is below `n`, making at most `fuel`
/// draws, and give 0 if every draw is rejected. The result is the value and
/// the position after the last draw.
pub open spec fn sample_below(key: Seq<u32>, pos: nat, n: u32, k: nat, fuel: nat) -> (u32, nat)
    decreases fuel,
{
    let r = mt19937_word(key, pos) >> ((32 - k) as u32);
    if r < n {
        (r, pos + 1)
    } else if fuel <= 1 {
        (0, pos + 1)
    } else {
        sample_below(key, pos + 1, n, k, (fuel - 1) as nat)
    }
}

/// A uniformly drawn value below `n` from position `pos` of the stream of
/// `key`, with the position after it; 0 without a draw when `n` is 0.
pub open spec fn rand_below(key: Seq<u32>, pos: nat, n: u32) -> (u32, nat) {
    if n == 0 {
        (0, pos)
    } else {
        sample_below(key, pos, n, bit_length(n as nat), MAX_DRAWS as nat)
    }
}

/// The index pool after `steps` rounds of the sampling without replacement,
/// with the stream position reached: each round `i` draws `j` below
/// `total - i` and moves the entry at `total - i - 1` into slot `j`.
pub open spec fn pool_after(key: Seq<u32>, total: nat, steps: nat) -> (Seq<u32>, nat)
    decreases steps,
{
    if steps == 0 {
        (Seq::new(total, |i: int| i as u32), 0)
    } else {
        let prev = pool_after(key, total, (steps - 1) as nat);
        let last = total - steps;
        let drawn = rand_below(key, prev.1, (total - (steps - 1)) as u32);
        (prev.0.update(drawn.0 as int, prev.0[last]), drawn.1)
    }
}

/// The position in the candidate list that sampling all `total` entries
/// without replacement places at `idx`.
pub open spec fn sampled_index(key: Seq<u32>, total: nat, idx: nat) -> u32 {
    let p = pool_after(key, total, idx);
    p.0[rand_below(key, p.1, (total - idx) as u32).0 as int]
}

/// The secret of puzzle `idx` for seed key `key` over the candidate list `words`.
pub open spec fn secret_at(words: Seq<Seq<char>>, key: Seq<u32>, idx: nat) -> Seq<char> {
    words[sampled_index(key, words.len(), idx % words.len()) as int]
}

proof fn lemma_sample_below_bound(key: Seq<u32>, pos: nat, n: u32, k: nat, fuel: nat)
    requires
        n > 0,
    ensures
        sample_below(key, pos, n, k, fuel).0 < n,
        sample_below(key, pos, n, k, fuel).1 > pos,
    decreases fuel,
{
    let r = mt19937_word(key, pos) >> ((32 - k) as u32);
    if !(r < n) && fuel > 1 {
        lemma_sample_below_bound(key, pos + 1, n, k, (fuel - 1) as nat);
    }
}

proof fn lemma_pool_after(key: Seq<u32>, total: nat, steps: nat)
    requires
        steps <= total,
        total <= u32::MAX,
    ensures
        pool_after(key, total, steps).0.len() == total,
        forall|i: int|
            0 <= i < total ==> #[trigger] pool_after(key, total, steps).0[i] < total,
    decreases steps,
{
    if steps > 0 {
        lemma_pool_after(key, total, (steps - 1) as nat);
        let prev = pool_after(key, total, (steps - 1) as nat);
        let n = (total - (steps - 1)) as u32;
        lemma_sample_below_bound(key, prev.1, n, bit_length(n as nat), MAX_DRAWS as nat);
    }
}

/// The secret of a puzzle depends on its index only modulo the length of
/// the candidate list: puzzle `i` and puzzle `i + len` have the same secret.
pub proof fn lemma_secret_wraps_around(words: Seq<Seq<char>>, key: Seq<u32>, i: nat)
    requires
        words.len() > 0,
    ensures
        secret_at(words, key, i) == secret_at(words, key, i + words.len()),
{
    lemma_mod_add_multiples_vanish(i as int, words.len() as int);
}

/// Two pickers made from the same seed over the same candidate list give
/// the same secret for every puzzle: the secret depends on the seed, the
/// list and the index alone.
pub proof fn law_secret_is_deterministic(
    seed: Seq<u8>,
    a: SecretPicker,
    b: SecretPicker,
    idx: nat,
)
    requires
        a.key() == seed_key(seed),
        b.key() == seed_key(seed),
        a.words() == b.words(),
    ensures
        secret_at(a.words(), a.key(), idx) == secret_at(b.words(), b.key(), idx),
{
}

/// Picks the secret word of each puzzle from a fixed candidate list, in the
/// order that seeded sampling without replacement gives.
pub struct SecretPicker {
    seed_digits: Vec<u32>,
    words: Vec<String>,
}

impl SecretPicker {
    /// The generator key derived from the seed.
    pub closed spec fn key(&self) -> Seq<u32> {
        self.seed_digits@
    }

    /// The candidate words.
    pub closed spec fn words(&self) -> Seq<Seq<char>> {
        self.words@.map_values(|w: String| w@)
    }

    pub closed spec fn wf(&self) -> bool {
        &&& 0 < self.words@.len() <= u32::MAX
        &&& self.seed_digits@.len() > 0
    }

    /// A picker for `seed` over the candidate list `words`.
    pub fn new(seed: &str, words: Vec<String>) -> (r: SecretPicker)
        requires
            0 < words@.len() <= u32::MAX,
        ensures
            r.wf(),
            r.key() == seed_key(seed.spec_bytes()),
            r.words() == words@.map_values(|w: String| w@),
    {
        let bytes = seed.as_bytes();
        let digest = sha512_digest(bytes);
        let ghost joined = bytes@ + digest@;
        let n = bytes.len();
        // the seed and its digest, last byte first
        let mut buf: Vec<u8> = Vec::new();
        let mut i: usize = 0;
        while i < 64
            invariant
                i <= 64,
                digest@.len() == 64,
                joined == bytes@ + digest@,
                buf@ =~= joined.reverse().subrange(0, i as int),
            decreases 64 - i,
        {
            buf.push(digest[63 - i]);
            i = i + 1;
            assert(buf@ =~= joined.reverse().subrange(0, i as int));
        }
        let mut i: usize = 0;
        while i < n
            invariant
                i <= n,
                n == bytes@.len(),
                digest@.len() == 64,
                joined == bytes@ + digest@,
                buf@ =~= joined.reverse().subrange(0, 64 + i),
            decreases n - i,
        {
            buf.push(bytes[n - 1 - i]);
            i = i + 1;
            assert(buf@ =~= joined.reverse().subrange(0, 64 + i));
        }
        assert(buf@ =~= joined.reverse());
        let ghost unpadded = buf@;
        while buf.len() % 4 != 0
            invariant
                unpadded.len() <= buf@.len() <= unpadded.len() + 3,
                buf@ =~= unpadded + Seq::new((buf@.len() - unpadded.len()) as nat, |i: int| 0u8),
                buf@.len() % 4 != 0 ==> buf@.len() + pad_len(buf@.len() as nat) == unpadded.len()
                    + pad_len(unpadded.len()),
                buf@.len() % 4 == 0 ==> buf@.len() == unpadded.len() + pad_len(unpadded.len()),
            decreases unpadded.len() + 3 - buf@.len(),
        {
            buf.push(0u8);
        }
        proof {
            assert(bytes@ == seed.spec_bytes());
            assert(buf@ =~= seed_buffer(seed.spec_bytes()));
        }
        let mut digits: Vec<u32> = Vec::new();
        let len = buf.len();
        let count = len / 4;
        let mut w: usize = 0;
        while w < count
            invariant
                w <= count,
                len == buf@.len(),
                count == buf@.len() / 4,
                buf@.len() % 4 == 0,
                buf@ == seed_buffer(seed.spec_bytes()),
                digits@ =~= seed_key(seed.spec_bytes()).subrange(0, w as int),
            decreases count - w,
        {
            assert(4 * w + 3 < buf@.len()) by (nonlinear_arith)
                requires
                    w < count,
                    count == buf@.len() / 4,
                    buf@.len() % 4 == 0,
            ;
            let b0 = buf[4 * w] as u32;
            let b1 = buf[4 * w + 1] as u32;
            let b2 = buf[4 * w + 2] as u32;
            let b3 = buf[4 * w + 3] as u32;
            let word = b0 + 256 * b1 + 65536 * b2 + 16777216 * b3;
            digits.push(word);
            w = w + 1;
            assert(digits@ =~= seed_key(seed.spec_bytes()).subrange(0, w as int));
        }
        assert(digits@ =~= seed_key(seed.spec_bytes()));
        SecretPicker { seed_digits: digits, words }
    }

    /// A value below `n` drawn from `rng` by rejection sampling on the top
    /// `bit_length(n)` bits of each word; 0, without a draw, when `n` is 0.
    pub fn randbelow(&self, rng: &mut MersenneTwister, n: u32) -> (r: u32)
        ensures
            (r, final(rng).drawn()) == rand_below(old(rng).key(), old(rng).drawn(), n),
            final(rng).key() == old(rng).key(),
            n > 0 ==> r < n,
    {
        if n == 0 {
            return 0;
        }
        proof {
            lemma_sample_below_bound(rng.key(), rng.drawn(), n, bit_length(n as nat), MAX_DRAWS as nat);
        }
        let ghost key = rng.key();
        let ghost start = rng.drawn();
        let k = bits_of(n);
        let shift: u32 = 32 - k;
        let mut r = rng.next_u32() >> shift;
        let mut fuel: u64 = MAX_DRAWS;
        while r >= n && fuel > 1
            invariant
                1 <= fuel <= MAX_DRAWS,
                0 < k <= 32,
                shift == 32 - k,
                k == bit_length(n as nat),
                rng.key() == key,
                rng.drawn() > 0,
                r == mt19937_word(key, (rng.drawn() - 1) as nat) >> shift,
                rand_below(key, start, n) == sample_below(key, (rng.drawn() - 1) as nat, n, k as nat, fuel as nat),
            decreases fuel,
        {
            r = rng.next_u32() >> shift;
            fuel = fuel - 1;
        }
        if r < n {
            r
        } else {
            0
        }
    }

    /// The position in the candidate list of the secret of puzzle `idx`.
    fn convert_index(&self, idx: u32) -> (r: u32)
        requires
            self.wf(),
            (idx as nat) < self.words@.len(),
        ensures
            r == sampled_index(self.key(), self.words@.len(), idx as nat),
            (r as nat) < self.words@.len(),
    {
        let mut rng = MersenneTwister::seeded(self.seed_digits.as_slice());
        let total = self.words.len() as u32;
        let ghost key = self.key();
        let mut pool: Vec<u32> = Vec::new();
        let mut i: u32 = 0;
        while i < total
            invariant
                i <= total,
                pool@ =~= Seq::new(i as nat, |k: int| k as u32),
            decreases total - i,
        {
            pool.push(i);
            i = i + 1;
        }
        proof {
            lemma_pool_after(key, total as nat, 0);
        }
        let mut i: u32 = 0;
        while i < idx
            invariant
                i <= idx < total,
                total == self.words@.len(),
                rng.key() == key,
                (pool@, rng.drawn()) == pool_after(key, total as nat, i as nat),
            decreases idx - i,
        {
            proof {
                lemma_pool_after(key, total as nat, i as nat);
            }
            let last = total - i - 1;
            let j = self.randbelow(&mut rng, total - i);
            let moved = pool[last as usize];
            pool.set(j as usize, moved);
            i = i + 1;
        }
        proof {
            lemma_pool_after(key, total as nat, idx as nat);
        }
        let j = self.randbelow(&mut rng, total - idx);
        pool[j as usize]
    }

    /// The secret of puzzle `idx`: the candidate that seeded sampling of the
    /// whole list places at `idx` modulo the list's length.
    pub fn get_secret(&self, idx: u32) -> (r: &str)
        requires
            self.wf(),
        ensures
            r@ == secret_at(self.words(), self.key(), idx as nat),
    {
        let total = self.words.len() as u32;
        let target = self.convert_index(idx % total);
        self.words[target as usize].as_str()
    }
}

/// Two to the power `j`.
pub open spec fn two_to(j: nat) -> nat
    decreases j,
{
    if j == 0 {
        1
    } else {
        2 * two_to((j - 1) as nat)
    }
}

proof fn lemma_bit_length_bound(m: nat, j: nat)
    requires
        m < two_to(j),
    ensures
        bit_length(m) <= j,
    decreases j,
{
    if m > 0 && j > 0 {
        lemma_bit_length_bound(m / 2, (j - 1) as nat);
    }
}

/// Number of bits needed to write `n` in binary.
fn bits_of(n: u32) -> (r: u32)
    ensures
        r as nat == bit_length(n as nat),
        n > 0 ==> 0 < r <= 32,
{
    proof {
        reveal_with_fuel(two_to, 33);
        lemma_bit_length_bound(n as nat, 32);
    }
    let mut k: u32 = 0;
    let mut m: u32 = n;
    while m > 0
        invariant
            k + bit_length(m as nat) == bit_length(n as nat),
            k + bit_length(m as nat) <= 32,
            n > 0 ==> (k > 0 || m > 0),
        decreases m,
    {
        m = m / 2;
        k = k + 1;
    }
    k
}

} // verus!
