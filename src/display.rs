use vstd::prelude::*;
use crate::error::{SimilariumError, SimilariumErrorType};

verus! {

/// The character of the decimal digit `d`.
pub open spec fn digit_char(d: nat) -> char {
    if d == 0 { '0' }
    else if d == 1 { '1' }
    else if d == 2 { '2' }
    else if d == 3 { '3' }
    else if d == 4 { '4' }
    else if d == 5 { '5' }
    else if d == 6 { '6' }
    else if d == 7 { '7' }
    else if d == 8 { '8' }
    else { '9' }
}

/// The decimal digits of `n`, most significant first.
pub open spec fn decimal_of(n: nat) -> Seq<char>
    decreases n,
{
    if n < 10 {
        seq![digit_char(n)]
    } else {
        decimal_of(n / 10).push(digit_char(n % 10))
    }
}

/// The decimal form of the integer `n`, with a leading '-' when negative.
pub open spec fn signed_decimal_of(n: int) -> Seq<char> {
    if n < 0 {
        seq!['-'] + decimal_of((-n) as nat)
    } else {
        decimal_of(n as nat)
    }
}

/// The one-digit string of `d`.
fn digit_str(d: u64) -> (r: &'static str)
    requires
        d < 10,
    ensures
        r@ == seq![digit_char(d as nat)],
{
    proof {
        reveal_strlit("0");
        reveal_strlit("1");
        reveal_strlit("2");
        reveal_strlit("3");
        reveal_strlit("4");
        reveal_strlit("5");
        reveal_strlit("6");
        reveal_strlit("7");
        reveal_strlit("8");
        reveal_strlit("9");
    }
    match d {
        0 => "0",
        1 => "1",
        2 => "2",
        3 => "3",
        4 => "4",
        5 => "5",
        6 => "6",
        7 => "7",
        8 => "8",
        _ => "9",
    }
}

/// Appends the decimal digits of `n` to `out`.
fn push_decimal(n: u64, out: &mut String)
    ensures
        final(out)@ == old(out)@ + decimal_of(n as nat),
    decreases n,
{
    if n >= 10 {
        push_decimal(n / 10, out);
    }
    out.append(digit_str(n % 10));
    proof {
        if n >= 10 {
            assert(decimal_of(n as nat) == decimal_of((n / 10) as nat).push(digit_char((n % 10) as nat)));
        }
    }
}

/// The decimal form of `n`.
pub fn decimal(n: u64) -> (r: String)
    ensures
        r@ == decimal_of(n as nat),
{
    let mut out = String::new();
    push_decimal(n, &mut out);
    out
}

/// The decimal form of `n`, with a leading '-' when negative.
pub fn signed_decimal(n: i64) -> (r: String)
    ensures
        r@ == signed_decimal_of(n as int),
{
    if n < 0 {
        let magnitude: u64 = if n == i64::MIN {
            0x8000_0000_0000_0000u64
        } else {
            (-n) as u64
        };
        let mut out = String::new();
        proof {
            reveal_strlit("-");
        }
        out.append("-");
        push_decimal(magnitude, &mut out);
        out
    } else {
        decimal(n as u64)
    }
}

/// `n` copies of `s`, one after another.
pub open spec fn repeated(s: Seq<char>, n: nat) -> Seq<char>
    decreases n,
{
    if n == 0 {
        Seq::empty()
    } else {
        repeated(s, (n - 1) as nat) + s
    }
}

/// Appends `n` copies of `s` to `out`.
fn push_repeated(s: &str, n: usize, out: &mut String)
    ensures
        final(out)@ == old(out)@ + repeated(s@, n as nat),
{
    let mut i: usize = 0;
    while i < n
        invariant
            i <= n,
            out@ == old(out)@ + repeated(s@, i as nat),
        decreases n - i,
    {
        out.append(s);
        i = i + 1;
        assert(out@ =~= old(out)@ + repeated(s@, i as nat));
    }
}

/// The number of characters in the decimal form of `n`.
pub open spec fn decimal_len(n: int) -> nat {
    signed_decimal_of(n).len()
}

/// The padding that right-aligns a rank in a column: two spaces for each
/// character that the rank's decimal form has fewer than five; none from
/// five digits on.
pub open spec fn rank_prefix_of(rank: int) -> Seq<char> {
    if rank > 9999 {
        Seq::empty()
    } else {
        repeated(seq![' ', ' '], (5 - decimal_len(rank)) as nat)
    }
}

proof fn lemma_decimal_len_small(n: nat)
    ensures
        decimal_of(n).len() >= 1,
        n < 10 ==> decimal_of(n).len() == 1,
        n < 100 ==> decimal_of(n).len() <= 2,
        n < 1000 ==> decimal_of(n).len() <= 3,
        n < 10000 ==> decimal_of(n).len() <= 4,
    decreases n,
{
    if n >= 10 {
        lemma_decimal_len_small(n / 10);
    }
}

/// Spaces that right-align `rank` in a column: 8 for one digit, 6 for two,
/// 4 for three, 2 for four and none from five digits on.
pub fn rank_prefix(rank: i64) -> (r: String)
    requires
        rank > -10000,
    ensures
        r@ == rank_prefix_of(rank as int),
{
    if rank > 9999 {
        return String::new();
    }
    let text = signed_decimal(rank);
    proof {
        if rank < 0 {
            lemma_decimal_len_small((-rank) as nat);
        } else {
            lemma_decimal_len_small(rank as nat);
        }
    }
    let len = text.as_str().unicode_len();
    let mut out = String::new();
    proof {
        reveal_strlit("  ");
    }
    push_repeated("  ", 5 - len, &mut out);
    assert("  "@ =~= seq![' ', ' ']);
    assert(out@ =~= rank_prefix_of(rank as int));
    out
}

/// The rank as shown next to a progress bar: the secret as a party emoji,
/// other ranks as their number, aligned by `rank_prefix`.
pub open spec fn formatted_rank_of(rank: int) -> Seq<char> {
    if rank == 0 {
        "        :tada:"@
    } else {
        seq![' ', ' '] + rank_prefix_of(rank) + signed_decimal_of(rank)
    }
}

/// The rank as shown next to a progress bar.
pub fn formatted_rank(rank: i64) -> (r: String)
    requires
        rank > -10000,
    ensures
        r@ == formatted_rank_of(rank as int),
{
    if rank == 0 {
        proof {
            reveal_strlit("        :tada:");
        }
        return String::from_str("        :tada:");
    }
    proof {
        reveal_strlit("  ");
    }
    let mut out = String::from_str("  ");
    out.append(rank_prefix(rank).as_str());
    out.append(signed_decimal(rank).as_str());
    out
}

/// The emoji of a progress step: `:p0:` (empty) to `:p8:` (full).
pub open spec fn step_emoji(k: nat) -> Seq<char> {
    seq![':', 'p', digit_char(k), ':']
}

/// The emoji string of step `k`.
fn step_str(k: usize) -> (r: &'static str)
    requires
        k <= 8,
    ensures
        r@ == step_emoji(k as nat),
{
    proof {
        reveal_strlit(":p0:");
        reveal_strlit(":p1:");
        reveal_strlit(":p2:");
        reveal_strlit(":p3:");
        reveal_strlit(":p4:");
        reveal_strlit(":p5:");
        reveal_strlit(":p6:");
        reveal_strlit(":p7:");
        reveal_strlit(":p8:");
    }
    match k {
        0 => ":p0:",
        1 => ":p1:",
        2 => ":p2:",
        3 => ":p3:",
        4 => ":p4:",
        5 => ":p5:",
        6 => ":p6:",
        7 => ":p7:",
        _ => ":p8:",
    }
}

/// How many of the `8 * width - 1` sections of a bar are filled for
/// `amount` out of `total`: the ceiling of `amount / section_size`, where a
/// section is `(total - 1) / (8 * width - 1)` units, at most all sections.
pub open spec fn filled_sections(amount: nat, total: nat, width: nat) -> nat {
    let sections = (8 * width - 1) as nat;
    let ceil = (amount * sections + (total - 1) - 1) / ((total - 1) as int);
    if ceil > sections {
        sections
    } else {
        ceil as nat
    }
}

/// A bar of `width` emojis for `amount` out of `total`: empty only at 0,
/// full only from `total` on, and filling one eighth of an emoji per
/// section in between.
pub open spec fn progress_bar_of(amount: nat, total: nat, width: nat) -> Seq<char> {
    if amount >= total {
        repeated(step_emoji(8), width)
    } else if amount == 0 {
        repeated(step_emoji(0), width)
    } else {
        let f = filled_sections(amount, total, width);
        repeated(step_emoji(8), f / 8) + step_emoji(f % 8) + repeated(
            step_emoji(0),
            (width - f / 8 - 1) as nat,
        )
    }
}

/// A progress bar of `width` emojis `:p0:` to `:p8:` showing `amount` out
/// of `total`; a width of 0 is a value error.
pub fn get_progress_bar(amount: usize, total: usize, width: usize) -> (r: Result<String, SimilariumError>)
    requires
        8 * width <= usize::MAX,
    ensures
        width == 0 <==> r is Err,
        r matches Err(e) ==> e.error_type == SimilariumErrorType::ValueError,
        r matches Ok(s) ==> s@ == progress_bar_of(amount as nat, total as nat, width as nat),
{
    if width < 1 {
        proof {
            reveal_strlit("width must be at least 1");
        }
        return Err(SimilariumError::value_error(String::from_str("width must be at least 1")));
    }
    let mut out = String::new();
    if amount >= total {
        push_repeated(step_str(8), width, &mut out);
        assert(out@ =~= progress_bar_of(amount as nat, total as nat, width as nat));
        return Ok(out);
    }
    if amount == 0 {
        push_repeated(step_str(0), width, &mut out);
        assert(out@ =~= progress_bar_of(amount as nat, total as nat, width as nat));
        return Ok(out);
    }
    let sections: usize = 8 * width - 1;
    let span: u128 = (total - 1) as u128;
    assert((amount as int) * (sections as int) <= 0xffff_ffff_ffff_ffff * 0xffff_ffff_ffff_ffff)
        by (nonlinear_arith)
        requires
            amount <= 0xffff_ffff_ffff_ffff,
            sections <= 0xffff_ffff_ffff_ffff,
    ;
    let ceil: u128 = ((amount as u128) * (sections as u128) + span - 1) / span;
    let filled: usize = if ceil > sections as u128 {
        sections
    } else {
        ceil as usize
    };
    let full = filled / 8;
    let partial = filled % 8;
    push_repeated(step_str(8), full, &mut out);
    out.append(step_str(partial));
    push_repeated(step_str(0), width - full - 1, &mut out);
    assert(filled as nat == filled_sections(amount as nat, total as nat, width as nat));
    assert(out@ =~= progress_bar_of(amount as nat, total as nat, width as nat));
    Ok(out)
}

/// The medal emoji of the winner at position `idx` (from 0), if any.
pub open spec fn medal_of(idx: nat) -> Seq<char> {
    if idx == 0 {
        ":first_place_medal:"@
    } else if idx == 1 {
        ":second_place_medal:"@
    } else if idx == 2 {
        ":third_place_medal:"@
    } else {
        Seq::empty()
    }
}

/// The medal for the `idx`-th winner (from 0): gold, silver, bronze, then none.
pub fn get_medal(idx: usize) -> (r: String)
    ensures
        r@ == medal_of(idx as nat),
{
    proof {
        reveal_strlit(":first_place_medal:");
        reveal_strlit(":second_place_medal:");
        reveal_strlit(":third_place_medal:");
        reveal_strlit("");
    }
    let s = match idx {
        0 => ":first_place_medal:",
        1 => ":second_place_medal:",
        2 => ":third_place_medal:",
        _ => "",
    };
    s.to_string()
}

} // verus!
