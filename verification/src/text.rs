//! Case-insensitive string matching and lexicographic ordering.
//!
//! Command phrasings are matched without regard to ASCII case, and
//! autocomplete suggestions are ordered lexicographically by code point.

use vstd::prelude::*;

verus! {

/// ASCII lowercasing of a single character; other characters are untouched.
pub open spec fn lower_char(c: char) -> char {
    if 65 <= c as int && c as int <= 90 {
        ((c as u8) + 32) as char
    } else {
        c
    }
}

/// ASCII lowercasing of a character sequence.
pub open spec fn lower(s: Seq<char>) -> Seq<char> {
    s.map_values(|c: char| lower_char(c))
}

/// `p` is a prefix of `s`, ignoring ASCII case.
pub open spec fn is_prefix_ci(p: Seq<char>, s: Seq<char>) -> bool {
    p.len() <= s.len() && lower(s.take(p.len() as int)) == lower(p)
}

/// Lexicographic order on character sequences by code point.
pub open spec fn lex_le(a: Seq<char>, b: Seq<char>) -> bool
    decreases a.len(),
{
    if a.len() == 0 {
        true
    } else if b.len() == 0 {
        false
    } else if (a[0] as int) < (b[0] as int) {
        true
    } else if (a[0] as int) > (b[0] as int) {
        false
    } else {
        lex_le(a.skip(1), b.skip(1))
    }
}

pub proof fn lemma_lower_len(s: Seq<char>)
    ensures
        lower(s).len() == s.len(),
{
}

pub proof fn lemma_lower_index(s: Seq<char>, i: int)
    requires
        0 <= i < s.len(),
    ensures
        lower(s)[i] == lower_char(s[i]),
{
}

pub proof fn lemma_lower_concat(a: Seq<char>, b: Seq<char>)
    ensures
        lower(a + b) == lower(a) + lower(b),
{
    assert(lower(a + b) =~= lower(a) + lower(b));
}

pub proof fn lemma_lower_take(s: Seq<char>, n: int)
    requires
        0 <= n <= s.len(),
    ensures
        lower(s.take(n)) == lower(s).take(n),
{
    assert(lower(s.take(n)) =~= lower(s).take(n));
}

pub proof fn lemma_lower_skip(s: Seq<char>, n: int)
    requires
        0 <= n <= s.len(),
    ensures
        lower(s.skip(n)) == lower(s).skip(n),
{
    assert(lower(s.skip(n)) =~= lower(s).skip(n));
}

/// The order `lex_le` is reflexive.
pub proof fn lemma_lex_refl(a: Seq<char>)
    ensures
        lex_le(a, a),
    decreases a.len(),
{
    if a.len() != 0 {
        lemma_lex_refl(a.skip(1));
    }
}

/// The order `lex_le` is total.
pub proof fn lemma_lex_total(a: Seq<char>, b: Seq<char>)
    ensures
        lex_le(a, b) || lex_le(b, a),
    decreases a.len(),
{
    if a.len() != 0 && b.len() != 0 && a[0] == b[0] {
        lemma_lex_total(a.skip(1), b.skip(1));
    }
}

/// The order `lex_le` is transitive.
pub proof fn lemma_lex_trans(a: Seq<char>, b: Seq<char>, c: Seq<char>)
    requires
        lex_le(a, b),
        lex_le(b, c),
    ensures
        lex_le(a, c),
    decreases a.len(),
{
    if a.len() != 0 && b.len() != 0 && c.len() != 0 {
        if a[0] == b[0] && b[0] == c[0] {
            lemma_lex_trans(a.skip(1), b.skip(1), c.skip(1));
        }
    }
}

/// An input that case-insensitively equals `p + rest` has `p` as a
/// case-insensitive prefix, and its remainder case-insensitively equals
/// `rest`.
pub proof fn lemma_prefix_ci_of_concat(p: Seq<char>, rest: Seq<char>, s: Seq<char>)
    requires
        lower(s) == lower(p + rest),
    ensures
        is_prefix_ci(p, s),
        lower(s.skip(p.len() as int)) == lower(rest),
        s.len() == p.len() + rest.len(),
{
    lemma_lower_concat(p, rest);
    assert(s.len() == lower(s).len());
    assert(s.len() == p.len() + rest.len());
    lemma_lower_take(s, p.len() as int);
    lemma_lower_skip(s, p.len() as int);
    assert(lower(s).take(p.len() as int) =~= lower(p));
    assert(lower(s).skip(p.len() as int) =~= lower(rest));
}

/// Lowercase one character.
pub fn to_lower_char(c: char) -> (r: char)
    ensures
        r == lower_char(c),
{
    if c >= 'A' && c <= 'Z' {
        ((c as u8) + 32) as char
    } else {
        c
    }
}

/// The two strings are equal ignoring ASCII case.
pub fn eq_ci(a: &str, b: &str) -> (r: bool)
    ensures
        r == (lower(a@) == lower(b@)),
{
    let a_len = a.unicode_len();
    let b_len = b.unicode_len();
    if a_len != b_len {
        proof {
            lemma_lower_len(a@);
            lemma_lower_len(b@);
        }
        return false;
    }
    let mut i: usize = 0;
    while i < a_len
        invariant
            a_len == a@.len(),
            b_len == b@.len(),
            a_len == b_len,
            i <= a_len,
            forall|j: int| 0 <= j < i ==> lower_char(a@[j]) == lower_char(b@[j]),
        decreases a_len - i,
    {
        let ca = to_lower_char(a.get_char(i));
        let cb = to_lower_char(b.get_char(i));
        if ca != cb {
            proof {
                lemma_lower_index(a@, i as int);
                lemma_lower_index(b@, i as int);
            }
            return false;
        }
        i += 1;
    }
    proof {
        assert(lower(a@) =~= lower(b@)) by {
            assert forall|j: int| 0 <= j < lower(a@).len() implies lower(a@)[j] == lower(b@)[j] by {
                lemma_lower_index(a@, j);
                lemma_lower_index(b@, j);
            }
        }
    }
    true
}

/// `p` is a prefix of `s`, ignoring ASCII case.
pub fn starts_with_ci(s: &str, p: &str) -> (r: bool)
    ensures
        r == is_prefix_ci(p@, s@),
{
    let s_len = s.unicode_len();
    let p_len = p.unicode_len();
    if p_len > s_len {
        return false;
    }
    let mut i: usize = 0;
    while i < p_len
        invariant
            s_len == s@.len(),
            p_len == p@.len(),
            p_len <= s_len,
            i <= p_len,
            forall|j: int| 0 <= j < i ==> lower_char(s@[j]) == lower_char(p@[j]),
        decreases p_len - i,
    {
        let cs = to_lower_char(s.get_char(i));
        let cp = to_lower_char(p.get_char(i));
        if cs != cp {
            proof {
                let t = s@.take(p@.len() as int);
                lemma_lower_index(t, i as int);
                lemma_lower_index(p@, i as int);
            }
            return false;
        }
        i += 1;
    }
    proof {
        let t = s@.take(p@.len() as int);
        assert(lower(t) =~= lower(p@)) by {
            assert forall|j: int| 0 <= j < lower(t).len() implies lower(t)[j] == lower(p@)[j] by {
                lemma_lower_index(t, j);
                lemma_lower_index(p@, j);
            }
        }
    }
    true
}

/// Strips a case-insensitive prefix, returning the remainder in its
/// original case.
pub fn strip_prefix_ci<'a>(s: &'a str, p: &str) -> (r: Option<&'a str>)
    ensures
        match r {
            Some(rest) => is_prefix_ci(p@, s@) && rest@ == s@.skip(p@.len() as int),
            None => !is_prefix_ci(p@, s@),
        },
{
    if starts_with_ci(s, p) {
        let s_len = s.unicode_len();
        let p_len = p.unicode_len();
        Some(s.substring_char(p_len, s_len))
    } else {
        None
    }
}

/// The two strings are equal, case sensitively.
pub fn eq_str(a: &str, b: &str) -> (r: bool)
    ensures
        r == (a@ == b@),
{
    let a_len = a.unicode_len();
    let b_len = b.unicode_len();
    if a_len != b_len {
        return false;
    }
    let mut i: usize = 0;
    while i < a_len
        invariant
            a_len == a@.len(),
            b_len == b@.len(),
            a_len == b_len,
            i <= a_len,
            forall|j: int| 0 <= j < i ==> a@[j] == b@[j],
        decreases a_len - i,
    {
        if a.get_char(i) != b.get_char(i) {
            return false;
        }
        i += 1;
    }
    proof {
        assert(a@ =~= b@);
    }
    true
}

/// Compares two strings lexicographically by code point.
pub fn str_le(a: &str, b: &str) -> (r: bool)
    ensures
        r == lex_le(a@, b@),
{
    let a_len = a.unicode_len();
    let b_len = b.unicode_len();
    let mut i: usize = 0;
    proof {
        assert(a@.skip(0) =~= a@);
        assert(b@.skip(0) =~= b@);
    }
    loop
        invariant
            a_len == a@.len(),
            b_len == b@.len(),
            i <= a_len,
            i <= b_len,
            forall|j: int| 0 <= j < i ==> a@[j] == b@[j],
            lex_le(a@, b@) == lex_le(a@.skip(i as int), b@.skip(i as int)),
        decreases a_len - i,
    {
        if i >= a_len {
            return true;
        }
        if i >= b_len {
            return false;
        }
        let ca = a.get_char(i);
        let cb = b.get_char(i);
        if ca != cb {
            return (ca as u32) < (cb as u32);
        }
        proof {
            lemma_lex_skip_one(a@.skip(i as int), b@.skip(i as int));
            assert(a@.skip(i as int).skip(1) =~= a@.skip(i as int + 1));
            assert(b@.skip(i as int).skip(1) =~= b@.skip(i as int + 1));
        }
        i += 1;
    }
}

/// Unfolds one step of `lex_le` when the leading characters agree.
proof fn lemma_lex_skip_one(a: Seq<char>, b: Seq<char>)
    requires
        a.len() > 0,
        b.len() > 0,
        a[0] == b[0],
    ensures
        lex_le(a, b) == lex_le(a.skip(1), b.skip(1)),
{
}

} // verus!
