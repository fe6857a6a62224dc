use vstd::prelude::*;

verus! {

/// The lowercase form of `s`, by the Unicode case mapping.
pub uninterp spec fn lower_of(s: Seq<char>) -> Seq<char>;

/// Relies on `str::to_lowercase`: the Unicode lowercase mapping of the text,
/// which depends on the text alone.
#[verifier::external_body]
fn lowercase(s: &str) -> (r: String)
    ensures
        r@ == lower_of(s@),
{
    s.to_lowercase()
}

/// Whether `c` has the Unicode `White_Space` property.
pub open spec fn is_white_space(c: char) -> bool {
    ||| '\t' <= c <= '\r'
    ||| c == ' '
    ||| c == '\u{85}'
    ||| c == '\u{a0}'
    ||| c == '\u{1680}'
    ||| '\u{2000}' <= c <= '\u{200a}'
    ||| c == '\u{2028}'
    ||| c == '\u{2029}'
    ||| c == '\u{202f}'
    ||| c == '\u{205f}'
    ||| c == '\u{3000}'
}

/// `s` without its leading white space.
pub open spec fn trim_start_of(s: Seq<char>) -> Seq<char>
    decreases s.len(),
{
    if s.len() > 0 && is_white_space(s[0]) {
        trim_start_of(s.drop_first())
    } else {
        s
    }
}

/// `s` without its trailing white space.
pub open spec fn trim_end_of(s: Seq<char>) -> Seq<char>
    decreases s.len(),
{
    if s.len() > 0 && is_white_space(s.last()) {
        trim_end_of(s.drop_last())
    } else {
        s
    }
}

/// `s` without leading and trailing white space.
pub open spec fn trimmed(s: Seq<char>) -> Seq<char> {
    trim_end_of(trim_start_of(s))
}

/// Relies on `str::trim`: the text without the leading and trailing
/// characters that have the `White_Space` property.
#[verifier::external_body]
pub(crate) fn trim(s: &str) -> (r: &str)
    ensures
        r@ == trimmed(s@),
{
    s.trim()
}

/// The spelling-variant pairs as character sequences.
pub open spec fn variants_view(variants: Seq<(String, String)>) -> Seq<(Seq<char>, Seq<char>)> {
    variants.map_values(|p: (String, String)| (p.0@, p.1@))
}

/// The canonical spelling of `word`: the second element of the first pair
/// whose first element is `word`, or `word` itself when no pair names it.
pub open spec fn canonical(variants: Seq<(Seq<char>, Seq<char>)>, word: Seq<char>) -> Seq<char>
    decreases variants.len(),
{
    if variants.len() == 0 {
        word
    } else if variants[0].0 == word {
        variants[0].1
    } else {
        canonical(variants.drop_first(), word)
    }
}

/// The canonical spelling of `word` under `variants`.
pub fn canonical_spelling(word: String, variants: &Vec<(String, String)>) -> (r: String)
    ensures
        r@ == canonical(variants_view(variants@), word@),
{
    let ghost all = variants_view(variants@);
    let mut i: usize = 0;
    assert(all.subrange(0, all.len() as int) =~= all);
    while i < variants.len()
        invariant
            i <= variants@.len(),
            all == variants_view(variants@),
            canonical(all, word@) == canonical(all.subrange(i as int, all.len() as int), word@),
        decreases variants@.len() - i,
    {
        proof {
            assert(all.subrange(i as int, all.len() as int).drop_first() =~= all.subrange(
                i + 1,
                all.len() as int,
            ));
        }
        if variants[i].0 == word {
            return variants[i].1.clone();
        }
        i = i + 1;
    }
    assert(all.subrange(i as int, all.len() as int) =~= Seq::<(Seq<char>, Seq<char>)>::empty());
    word
}

/// The form of a raw guess under which it is scored and stored: lowercased,
/// trimmed, then brought to its canonical spelling.
pub open spec fn normalized(raw: Seq<char>, variants: Seq<(Seq<char>, Seq<char>)>) -> Seq<char> {
    canonical(variants, trimmed(lower_of(raw)))
}

/// Normalizes a raw guess: lowercase, trim surrounding white space, and map
/// spelling variants to their canonical form.
pub fn normalize(raw: &str, variants: &Vec<(String, String)>) -> (r: String)
    ensures
        r@ == normalized(raw@, variants_view(variants@)),
{
    let lower = lowercase(raw);
    let bare = trim(lower.as_str()).to_string();
    canonical_spelling(bare, variants)
}

} // verus!
