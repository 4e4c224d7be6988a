//! Character and string helpers shared by the prefix resolver and the
//! command tree matcher: whitespace handling, word splitting, literal
//! prefix stripping and case-insensitive name comparison.
use vstd::prelude::*;

verus! {

/// The whitespace characters recognized when tokenizing message text.
pub open spec fn is_space(c: char) -> bool {
    c == ' ' || c == '\t' || c == '\n' || c == '\r'
}

/// Case-insensitive equality on single characters, over their code points:
/// the same code point, or the same letter in the ASCII ranges `A..Z`
/// (65..90) and `a..z` (97..122).
pub open spec fn eq_char_ci(a: char, b: char) -> bool {
    a as u32 == b as u32
    || (65 <= a as u32 && a as u32 <= 90 && a as u32 + 32 == b as u32)
    || (97 <= a as u32 && a as u32 <= 122 && a as u32 == b as u32 + 32)
}

/// Case-insensitive equality on character sequences.
pub open spec fn seq_eq_ci(a: Seq<char>, b: Seq<char>) -> bool {
    a.len() == b.len() && forall|i: int| 0 <= i < a.len() ==> eq_char_ci(a[i], b[i])
}

/// Equality on a candidate word and a command name, under the configured
/// case sensitivity.
pub open spec fn name_matches(word: Seq<char>, name: Seq<char>, ci: bool) -> bool {
    if ci {
        seq_eq_ci(word, name)
    } else {
        word == name
    }
}

/// `p` is a prefix of `s`.
pub open spec fn is_prefix_of(p: Seq<char>, s: Seq<char>) -> bool {
    p.len() <= s.len() && s.subrange(0, p.len() as int) == p
}

/// Number of leading whitespace characters of `s`.
pub open spec fn leading_spaces(s: Seq<char>) -> int
    decreases s.len(),
{
    if s.len() > 0 && is_space(s[0]) {
        1 + leading_spaces(s.drop_first())
    } else {
        0
    }
}

/// `s` with its leading whitespace removed.
pub open spec fn trim_start_spec(s: Seq<char>) -> Seq<char> {
    s.subrange(leading_spaces(s), s.len() as int)
}

/// Length of the leading whitespace-free word of `s`.
pub open spec fn word_len(s: Seq<char>) -> int
    decreases s.len(),
{
    if s.len() > 0 && !is_space(s[0]) {
        1 + word_len(s.drop_first())
    } else {
        0
    }
}

/// Tokenization step: the leading whitespace-delimited word of `s`, and the
/// text after it with its own leading whitespace removed.
pub open spec fn split_word_spec(s: Seq<char>) -> (Seq<char>, Seq<char>) {
    let t = trim_start_spec(s);
    let w = t.subrange(0, word_len(t));
    let rest = trim_start_spec(t.subrange(word_len(t), t.len() as int));
    (w, rest)
}

/// An index below which everything is whitespace, and at which (if inside the
/// sequence) something is not, is exactly `leading_spaces`.
pub proof fn lemma_leading_spaces_unique(s: Seq<char>, i: int)
    requires
        0 <= i <= s.len(),
        forall|j: int| 0 <= j < i ==> is_space(s[j]),
        i == s.len() || !is_space(s[i]),
    ensures
        i == leading_spaces(s),
    decreases s.len(),
{
    if s.len() > 0 && is_space(s[0]) {
        assert(forall|j: int| 0 <= j < i - 1 ==> s.drop_first()[j] == s[j + 1]);
        lemma_leading_spaces_unique(s.drop_first(), i - 1);
    }
}

/// An index below which nothing is whitespace, and at which (if inside the
/// sequence) whitespace stands, is exactly `word_len`.
pub proof fn lemma_word_len_unique(s: Seq<char>, i: int)
    requires
        0 <= i <= s.len(),
        forall|j: int| 0 <= j < i ==> !is_space(s[j]),
        i == s.len() || is_space(s[i]),
    ensures
        i == word_len(s),
    decreases s.len(),
{
    if s.len() > 0 && !is_space(s[0]) {
        assert(forall|j: int| 0 <= j < i - 1 ==> s.drop_first()[j] == s[j + 1]);
        lemma_word_len_unique(s.drop_first(), i - 1);
    }
}

pub fn is_space_char(c: char) -> (r: bool)
    ensures
        r == is_space(c),
{
    c == ' ' || c == '\t' || c == '\n' || c == '\r'
}

pub fn char_eq_ci(a: char, b: char) -> (r: bool)
    ensures
        r == eq_char_ci(a, b),
{
    let au = a as u32;
    let bu = b as u32;
    au == bu || (65 <= au && au <= 90 && au + 32 == bu) || (97 <= au && au <= 122 && au == bu + 32)
}

/// Compare a candidate word with a command name under the configured case
/// sensitivity.
pub fn str_matches(word: &str, name: &str, ci: bool) -> (r: bool)
    ensures
        r == name_matches(word@, name@, ci),
{
    let wn = word.unicode_len();
    let nn = name.unicode_len();
    if wn != nn {
        proof {
            if !ci {
                assert(word@ != name@);
            }
        }
        return false;
    }
    let mut i: usize = 0;
    while i < wn
        invariant
            wn == word@.len(),
            nn == name@.len(),
            wn == nn,
            0 <= i <= wn,
            ci ==> forall|j: int| 0 <= j < i ==> eq_char_ci(word@[j], name@[j]),
            !ci ==> forall|j: int| 0 <= j < i ==> word@[j] == name@[j],
        decreases wn - i,
    {
        let a = word.get_char(i);
        let b = name.get_char(i);
        let same = if ci {
            char_eq_ci(a, b)
        } else {
            a == b
        };
        if !same {
            proof {
                if !ci {
                    assert(word@[i as int] != name@[i as int]);
                }
            }
            return false;
        }
        i = i + 1;
    }
    proof {
        if !ci {
            assert(word@ =~= name@);
        }
    }
    true
}

/// Strip the case-sensitive literal prefix `p` from `content`; `None` when
/// `content` does not begin with `p`.
pub fn strip_literal(content: &str, p: &str) -> (r: Option<String>)
    ensures
        match r {
            Some(rest) => is_prefix_of(p@, content@)
                && rest@ == content@.subrange(p@.len() as int, content@.len() as int)
                && content@ == p@ + rest@,
            None => !is_prefix_of(p@, content@),
        },
{
    let pn = p.unicode_len();
    let cn = content.unicode_len();
    if pn > cn {
        return None;
    }
    let mut i: usize = 0;
    while i < pn
        invariant
            pn == p@.len(),
            cn == content@.len(),
            pn <= cn,
            0 <= i <= pn,
            forall|j: int| 0 <= j < i ==> content@[j] == p@[j],
        decreases pn - i,
    {
        if content.get_char(i) != p.get_char(i) {
            proof {
                assert(content@.subrange(0, pn as int)[i as int] != p@[i as int]);
            }
            return None;
        }
        i = i + 1;
    }
    let rest = content.substring_char(pn, cn).to_owned();
    proof {
        assert(content@.subrange(0, pn as int) =~= p@);
        assert(content@ =~= p@ + rest@);
    }
    Some(rest)
}

/// Count the whitespace characters of `s` starting at `start`.
pub fn count_spaces_from(s: &str, start: usize) -> (k: usize)
    requires
        start <= s@.len(),
    ensures
        k == leading_spaces(s@.subrange(start as int, s@.len() as int)),
        start + k <= s@.len(),
{
    let n = s.unicode_len();
    let mut i: usize = start;
    while i < n && is_space_char(s.get_char(i))
        invariant
            n == s@.len(),
            start <= i <= n,
            forall|j: int| start <= j < i ==> is_space(s@[j]),
        decreases n - i,
    {
        i = i + 1;
    }
    proof {
        let t = s@.subrange(start as int, n as int);
        assert(forall|j: int| 0 <= j < i - start ==> t[j] == s@[start + j]);
        lemma_leading_spaces_unique(t, i - start);
    }
    i - start
}

/// Split off the leading whitespace-delimited word: the word, then the
/// remaining text with its own leading whitespace removed.
pub fn split_word(s: &str) -> (r: (String, String))
    ensures
        r.0@ == split_word_spec(s@).0,
        r.1@ == split_word_spec(s@).1,
{
    let n = s.unicode_len();
    let a = count_spaces_from(s, 0);
    let mut b: usize = a;
    while b < n && !is_space_char(s.get_char(b))
        invariant
            n == s@.len(),
            a <= b <= n,
            forall|j: int| a <= j < b ==> !is_space(s@[j]),
        decreases n - b,
    {
        b = b + 1;
    }
    let c = b + count_spaces_from(s, b);
    let word = s.substring_char(a, b).to_owned();
    let rest = s.substring_char(c, n).to_owned();
    proof {
        assert(s@.subrange(0, n as int) =~= s@);
        let t = trim_start_spec(s@);
        assert(t =~= s@.subrange(a as int, n as int));
        assert(forall|j: int| 0 <= j < b - a ==> t[j] == s@[a + j]);
        lemma_word_len_unique(t, b - a);
        assert(word@ =~= t.subrange(0, word_len(t)));
        let u = t.subrange(word_len(t), t.len() as int);
        assert(u =~= s@.subrange(b as int, n as int));
        assert(rest@ =~= trim_start_spec(u));
    }
    (word, rest)
}

} // verus!
