//! Case-insensitive matching of configuration tokens.
//!
//! Configuration values such as the aspect preference arrive as free-form
//! text.  A value is compared against the accepted tokens after
//! normalization: ASCII letters are lowercased and leading and trailing
//! ASCII whitespace is removed.

use vstd::prelude::*;
use vstd::string::*;

verus! {

/// ASCII whitespace, as stripped by normalization.
pub open spec fn is_space(c: char) -> bool {
    c == ' ' || c == '\t' || c == '\n' || c == '\r'
}

/// ASCII lowercasing of a single character; other characters are kept.
pub open spec fn lower_char(c: char) -> char {
    if 65 <= c as u32 && c as u32 <= 90 {
        ((c as u32) + 32) as char
    } else {
        c
    }
}

/// ASCII lowercasing of a character sequence.
pub open spec fn lower_seq(s: Seq<char>) -> Seq<char> {
    s.map_values(|c: char| lower_char(c))
}

/// The sequence with its leading ASCII whitespace removed.
pub open spec fn trim_front(s: Seq<char>) -> Seq<char>
    decreases s.len(),
{
    if s.len() > 0 && is_space(s.first()) {
        trim_front(s.drop_first())
    } else {
        s
    }
}

/// The sequence with its trailing ASCII whitespace removed.
pub open spec fn trim_back(s: Seq<char>) -> Seq<char>
    decreases s.len(),
{
    if s.len() > 0 && is_space(s.last()) {
        trim_back(s.drop_last())
    } else {
        s
    }
}

/// The normalized form of a configuration value: ASCII-lowercased, then
/// stripped of leading and trailing ASCII whitespace.
pub open spec fn normalized(s: Seq<char>) -> Seq<char> {
    trim_back(trim_front(lower_seq(s)))
}

/// Lowercasing never turns a character into whitespace or out of it.
proof fn lemma_lower_preserves_space(c: char)
    ensures
        is_space(lower_char(c)) == is_space(c),
{
}

fn lower_char_exec(c: char) -> (r: char)
    ensures
        r == lower_char(c),
{
    let u = c as u32;
    if 65 <= u && u <= 90 {
        ((u + 32) as u8) as char
    } else {
        c
    }
}

fn is_space_exec(c: char) -> (r: bool)
    ensures
        r == is_space(c),
{
    c == ' ' || c == '\t' || c == '\n' || c == '\r'
}

/// When everything before `from` is whitespace and `from` itself is not,
/// trimming the front keeps exactly the characters from `from` on.
proof fn lemma_trim_front_subrange(s: Seq<char>, from: int)
    requires
        0 <= from <= s.len(),
        forall|j: int| 0 <= j < from ==> is_space(s[j]),
        from < s.len() ==> !is_space(s[from]),
    ensures
        trim_front(s) == s.subrange(from, s.len() as int),
    decreases from,
{
    if from == 0 {
        assert(trim_front(s) =~= s.subrange(0, s.len() as int));
    } else {
        let t = s.drop_first();
        assert(forall|j: int| 0 <= j < from - 1 ==> is_space(t[j]));
        lemma_trim_front_subrange(t, from - 1);
        assert(t.subrange(from - 1, t.len() as int) =~= s.subrange(from, s.len() as int));
    }
}

/// When everything from `to` on is whitespace and the character before
/// `to` is not, trimming the back keeps exactly the characters before `to`.
proof fn lemma_trim_back_subrange(s: Seq<char>, to: int)
    requires
        0 <= to <= s.len(),
        forall|j: int| to <= j < s.len() ==> is_space(s[j]),
        to > 0 ==> !is_space(s[to - 1]),
    ensures
        trim_back(s) == s.subrange(0, to),
    decreases s.len() - to,
{
    if to == s.len() {
        assert(trim_back(s) =~= s.subrange(0, to));
    } else {
        let t = s.drop_last();
        lemma_trim_back_subrange(t, to);
        assert(t.subrange(0, to) =~= s.subrange(0, to));
    }
}

/// The bounds of the normalized content of `s`: everything before the
/// first index and from the second index on is whitespace, and the
/// normalized form of `s` is the lowercased text between the two.
fn trim_bounds(s: &str) -> (b: (usize, usize))
    ensures
        b.0 <= b.1 <= s@.len(),
        normalized(s@) == lower_seq(s@).subrange(b.0 as int, b.1 as int),
{
    let n = s.unicode_len();
    let mut from: usize = 0;
    while from < n && is_space_exec(s.get_char(from))
        invariant
            n == s@.len(),
            from <= n,
            forall|j: int| 0 <= j < from ==> is_space(s@[j]),
        decreases n - from,
    {
        from = from + 1;
    }
    let mut to: usize = n;
    while to > from && is_space_exec(s.get_char(to - 1))
        invariant
            n == s@.len(),
            from <= to <= n,
            forall|j: int| to <= j < n ==> is_space(s@[j]),
        decreases to,
    {
        to = to - 1;
    }
    proof {
        let ls = lower_seq(s@);
        assert forall|j: int| 0 <= j < s@.len() implies is_space(ls[j]) == is_space(s@[j]) by {
            lemma_lower_preserves_space(s@[j]);
        }
        lemma_trim_front_subrange(ls, from as int);
        let mid = ls.subrange(from as int, ls.len() as int);
        lemma_trim_back_subrange(mid, to - from);
        assert(mid.subrange(0, to - from) =~= ls.subrange(from as int, to as int));
    }
    (from, to)
}

/// Whether the lowercased characters of `s` between `from` and `to`
/// spell exactly `token`.
fn lower_range_matches(s: &str, from: usize, to: usize, token: &str) -> (r: bool)
    requires
        from <= to <= s@.len(),
    ensures
        r == (lower_seq(s@).subrange(from as int, to as int) == token@),
{
    let n = token.unicode_len();
    if to - from != n {
        return false;
    }
    let mut i: usize = 0;
    while i < n
        invariant
            n == token@.len(),
            from <= to <= s@.len(),
            to - from == n,
            i <= n,
            forall|j: int|
                0 <= j < i ==> lower_seq(s@).subrange(from as int, to as int)[j] == token@[j],
        decreases n - i,
    {
        let c = lower_char_exec(s.get_char(from + i));
        let t = token.get_char(i);
        if c != t {
            return false;
        }
        i = i + 1;
    }
    proof {
        assert(lower_seq(s@).subrange(from as int, to as int) =~= token@);
    }
    true
}

/// A word that normalization leaves alone — non-empty, no surrounding
/// whitespace, already lowercase — is its own normalized form.
pub proof fn lemma_normalized_fixed_point(s: Seq<char>)
    requires
        s.len() > 0,
        !is_space(s.first()),
        !is_space(s.last()),
        forall|i: int| 0 <= i < s.len() ==> lower_char(#[trigger] s[i]) == s[i],
    ensures
        normalized(s) == s,
{
    assert(lower_seq(s) =~= s);
    assert(trim_front(s) == s);
    assert(trim_back(s) == s);
}

/// Whether the normalized form of `s` equals the token.  This is the
/// comparison the configuration conversions are built from.
pub fn matches_normalized(s: &str, token: &str) -> (r: bool)
    ensures
        r == (normalized(s@) == token@),
{
    let b = trim_bounds(s);
    lower_range_matches(s, b.0, b.1, token)
}

} // verus!
