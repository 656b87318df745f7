//! The identifier formatter: camelCase to kebab-case.

use vstd::prelude::*;

verus! {

/// An ASCII uppercase letter.
pub open spec fn is_upper(c: char) -> bool {
    'A' <= c && c <= 'Z'
}

/// An ASCII lowercase letter.
pub open spec fn is_lower(c: char) -> bool {
    'a' <= c && c <= 'z'
}

/// `c` with an ASCII uppercase letter turned into its lowercase form.
pub open spec fn lower(c: char) -> char {
    if is_upper(c) {
        ((c as u32) + 32) as char
    } else {
        c
    }
}

/// What the formatter emits for the character at `i`: a separator first
/// when a lowercase letter is followed by an uppercase one.
pub open spec fn kebab_piece(s: Seq<char>, i: int) -> Seq<char> {
    if i > 0 && is_lower(s[i - 1]) && is_upper(s[i]) {
        seq!['-', lower(s[i])]
    } else {
        seq![lower(s[i])]
    }
}

/// The kebab-case form of `s`.
pub open spec fn kebab(s: Seq<char>) -> Seq<char>
    decreases s.len(),
{
    if s.len() == 0 {
        seq![]
    } else {
        kebab(s.drop_last()) + kebab_piece(s, s.len() - 1)
    }
}

/// No character of `s` is an ASCII uppercase letter.
pub open spec fn has_no_upper(s: Seq<char>) -> bool {
    forall|i: int| 0 <= i < s.len() ==> !is_upper(#[trigger] s[i])
}

fn to_lower(c: char) -> (r: char)
    ensures
        r == lower(c),
{
    if 'A' <= c && c <= 'Z' {
        let u: u32 = c as u32;
        ((u + 32) as u8) as char
    } else {
        c
    }
}

/// Converts a camelCase identifier to kebab-case: a `-` goes before every
/// uppercase ASCII letter that follows a lowercase one, and every character
/// is lowered.
pub fn camel_to_kebab_case(input: &str) -> (r: String)
    ensures
        r@ == kebab(input@),
{
    let mut kebab_case = String::new();
    let mut prev_char: Option<char> = None;
    for current_char in it: input.chars()
        invariant
            it.seq() == input@,
            kebab_case@ == kebab(input@.take(it.index())),
            it.index() == 0 <==> prev_char is None,
            it.index() > 0 ==> prev_char == Some(input@[it.index() - 1]),
    {
        let ghost i = it.index();
        if let Some(prev) = prev_char {
            if 'a' <= prev && prev <= 'z' && 'A' <= current_char && current_char <= 'Z' {
                kebab_case.push('-');
            }
        }
        kebab_case.push(to_lower(current_char));
        prev_char = Some(current_char);
        proof {
            assert(input@.take(i + 1).drop_last() == input@.take(i));
        }
    }
    proof {
        assert(input@.take(input@.len() as int) == input@);
    }
    kebab_case
}

/// A lowered character is never an ASCII uppercase letter.
pub proof fn lemma_lower_not_upper(c: char)
    ensures
        !is_upper(lower(c)),
{
    if is_upper(c) {
        let u = c as u32;
        assert(65 <= u <= 90);
        assert(((u + 32) as char) as u32 == u + 32);
    }
}

/// The formatter's output holds no ASCII uppercase letter.
pub proof fn lemma_kebab_has_no_upper(s: Seq<char>)
    ensures
        has_no_upper(kebab(s)),
    decreases s.len(),
{
    if s.len() > 0 {
        lemma_kebab_has_no_upper(s.drop_last());
        lemma_lower_not_upper(s[s.len() - 1]);
        let k = kebab(s);
        let p = kebab(s.drop_last());
        assert forall|i: int| 0 <= i < k.len() implies !is_upper(#[trigger] k[i]) by {
            if i >= p.len() {
                assert(k[i] == kebab_piece(s, s.len() - 1)[i - p.len()]);
            } else {
                assert(k[i] == p[i]);
            }
        }
    }
}

/// A string with no ASCII uppercase letter (one already in kebab-case or in
/// lowercase) is left as it is.
pub proof fn lemma_kebab_fixed_without_upper(s: Seq<char>)
    requires
        has_no_upper(s),
    ensures
        kebab(s) == s,
    decreases s.len(),
{
    if s.len() > 0 {
        let p = s.drop_last();
        assert(has_no_upper(p)) by {
            assert forall|i: int| 0 <= i < p.len() implies !is_upper(#[trigger] p[i]) by {
                assert(p[i] == s[i]);
            }
        }
        lemma_kebab_fixed_without_upper(p);
        assert(!is_upper(s[s.len() - 1]));
        assert(s == p.push(s[s.len() - 1]));
    }
}

/// Formatting twice gives what formatting once gives.
pub proof fn lemma_kebab_idempotent(s: Seq<char>)
    ensures
        kebab(kebab(s)) == kebab(s),
{
    lemma_kebab_has_no_upper(s);
    lemma_kebab_fixed_without_upper(kebab(s));
}

} // verus!
