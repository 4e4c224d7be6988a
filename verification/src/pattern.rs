//! Pattern-based prefixes, backed by the `regex` crate.
//!
//! A compiled pattern is opaque; what its leftmost match on a given text is
//! gets a name, `regex_leftmost`, and the anchoring check (a prefix match
//! must start at position zero) is done in verified code.
use vstd::prelude::*;

verus! {

#[verifier::external_type_specification]
#[verifier::external_body]
pub struct ExRegex(regex::Regex);

/// The leftmost match of the pattern in the text: its starting byte offset,
/// the matched text, and the text following the match. `None` when the
/// pattern does not match anywhere. A function of the pattern and the text
/// alone: `regex::Regex::find` is deterministic.
pub uninterp spec fn regex_leftmost(pattern: Seq<char>, text: Seq<char>) -> Option<(int, Seq<char>, Seq<char>)>;

/// A pattern prefix: a compiled regular expression together with the pattern
/// text it was compiled from. The pairing is established by `compile`, the
/// only constructor.
pub struct PatternPrefix {
    re: regex::Regex,
    pattern: String,
}

impl View for PatternPrefix {
    type V = Seq<char>;

    /// The pattern text the expression was compiled from.
    closed spec fn view(&self) -> Seq<char> {
        self.pattern@
    }
}

impl PatternPrefix {
    /// Relies on `regex::Regex::new`: compiles the pattern, `Err` on invalid
    /// pattern syntax.
    #[verifier::external_body]
    pub fn compile(pattern: &str) -> (r: Option<PatternPrefix>)
        ensures
            match r {
                Some(p) => p@ == pattern@,
                None => true,
            },
    {
        match regex::Regex::new(pattern) {
            Ok(re) => Some(PatternPrefix { re, pattern: pattern.to_owned() }),
            Err(_) => None,
        }
    }

    /// Relies on `regex::Regex::find`: returns the leftmost match, whose
    /// start and end lie on character boundaries of the haystack, so the
    /// haystack is the matched text appended to the remainder whenever the
    /// match starts at offset zero.
    #[verifier::external_body]
    fn find_leftmost(&self, text: &str) -> (r: Option<(usize, String, String)>)
        ensures
            match r {
                Some(m) => regex_leftmost(self@, text@) == Some((m.0 as int, m.1@, m.2@))
                    && (m.0 == 0 ==> text@ == m.1@ + m.2@),
                None => regex_leftmost(self@, text@) == None::<(int, Seq<char>, Seq<char>)>,
            },
    {
        match self.re.find(text) {
            Some(m) => Some((m.start(), m.as_str().to_owned(), text[m.end()..].to_owned())),
            None => None,
        }
    }
}

/// The split a pattern prefix produces: the matched prefix and the remaining
/// text when the leftmost match starts at position zero, `None` otherwise.
pub open spec fn regex_anchored_split(pattern: Seq<char>, text: Seq<char>) -> Option<(Seq<char>, Seq<char>)> {
    match regex_leftmost(pattern, text) {
        Some((start, m, rest)) => if start == 0 {
            Some((m, rest))
        } else {
            None
        },
        None => None,
    }
}

/// Match a pattern prefix against the start of `text`: a match anywhere
/// later than position zero does not count.
pub fn match_pattern_prefix(p: &PatternPrefix, text: &str) -> (r: Option<(String, String)>)
    ensures
        match r {
            Some(pair) => regex_anchored_split(p@, text@) == Some((pair.0@, pair.1@))
                && text@ == pair.0@ + pair.1@,
            None => regex_anchored_split(p@, text@) is None,
        },
{
    match p.find_leftmost(text) {
        Some((start, m, rest)) => {
            if start == 0 {
                Some((m, rest))
            } else {
                None
            }
        },
        None => None,
    }
}

} // verus!
