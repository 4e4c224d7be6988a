//! Prefix resolution: decide whether a message begins with a recognized
//! command prefix, trying the strategies in priority order — the stripping
//! dynamic callback, the prefix-returning dynamic callback, the static and
//! additional prefixes in declaration order, and finally a mention of the
//! bot's own account.
use vstd::prelude::*;

use crate::pattern::{match_pattern_prefix, regex_anchored_split};
use crate::structs::{Prefix, PrefixFrameworkOptions};
use crate::text::{is_prefix_of, leading_spaces, strip_literal, count_spaces_from};

verus! {

/// The decimal digits of `n`, most significant first.
pub open spec fn digits_of(n: nat) -> Seq<char>
    decreases n,
{
    if n < 10 {
        seq![digit_char(n)]
    } else {
        digits_of(n / 10).push(digit_char(n % 10))
    }
}

/// The character of a single decimal digit.
pub open spec fn digit_char(d: nat) -> char {
    if d == 0 {
        '0'
    } else if d == 1 {
        '1'
    } else if d == 2 {
        '2'
    } else if d == 3 {
        '3'
    } else if d == 4 {
        '4'
    } else if d == 5 {
        '5'
    } else if d == 6 {
        '6'
    } else if d == 7 {
        '7'
    } else if d == 8 {
        '8'
    } else {
        '9'
    }
}

fn digit_char_exec(d: u64) -> (c: char)
    requires
        d < 10,
    ensures
        c == digit_char(d as nat),
{
    if d == 0 {
        '0'
    } else if d == 1 {
        '1'
    } else if d == 2 {
        '2'
    } else if d == 3 {
        '3'
    } else if d == 4 {
        '4'
    } else if d == 5 {
        '5'
    } else if d == 6 {
        '6'
    } else if d == 7 {
        '7'
    } else if d == 8 {
        '8'
    } else {
        '9'
    }
}

fn push_digits(n: u64, out: &mut Vec<char>)
    ensures
        final(out)@ == old(out)@ + digits_of(n as nat),
    decreases n,
{
    if n >= 10 {
        push_digits(n / 10, out);
    }
    let c = digit_char_exec(n % 10);
    out.push(c);
    proof {
        assert(out@ =~= old(out)@ + digits_of(n as nat));
    }
}

/// The text of a mention of the given account: `<@id>`, or `<@!id>` in its
/// nickname form.
pub open spec fn mention_text(bot_id: u64, nick: bool) -> Seq<char> {
    if nick {
        seq!['<', '@', '!'] + digits_of(bot_id as nat) + seq!['>']
    } else {
        seq!['<', '@'] + digits_of(bot_id as nat) + seq!['>']
    }
}

/// The split a leading mention of the bot produces: the mention itself plus
/// the whitespace right after it, and the remaining text.
pub open spec fn mention_split(bot_id: u64, content: Seq<char>) -> Option<(Seq<char>, Seq<char>)> {
    if is_prefix_of(mention_text(bot_id, false), content) {
        Some(split_at_spaces(content, mention_text(bot_id, false).len() as int))
    } else if is_prefix_of(mention_text(bot_id, true), content) {
        Some(split_at_spaces(content, mention_text(bot_id, true).len() as int))
    } else {
        None
    }
}

/// Split `content` after position `i` extended over the whitespace that
/// follows it.
pub open spec fn split_at_spaces(content: Seq<char>, i: int) -> (Seq<char>, Seq<char>) {
    let j = i + leading_spaces(content.subrange(i, content.len() as int));
    (content.subrange(0, j), content.subrange(j, content.len() as int))
}

/// The split a literal prefix produces: the prefix and the text after it.
pub open spec fn literal_split(p: Seq<char>, content: Seq<char>) -> Option<(Seq<char>, Seq<char>)> {
    if is_prefix_of(p, content) {
        Some((p, content.subrange(p.len() as int, content.len() as int)))
    } else {
        None
    }
}

/// The split one configured prefix produces on the message.
pub open spec fn prefix_split(pfx: Prefix, content: Seq<char>) -> Option<(Seq<char>, Seq<char>)> {
    match pfx {
        Prefix::Literal(s) => literal_split(s@, content),
        Prefix::Regex(p) => regex_anchored_split(p@, content),
    }
}

/// The first of the additional prefixes, in declaration order, that matches
/// the start of the message.
pub open spec fn additional_split(prefixes: Seq<Prefix>, content: Seq<char>) -> Option<
    (Seq<char>, Seq<char>),
>
    decreases prefixes.len(),
{
    if prefixes.len() == 0 {
        None
    } else {
        match prefix_split(prefixes[0], content) {
            Some(r) => Some(r),
            None => additional_split(prefixes.drop_first(), content),
        }
    }
}

/// The static prefix, if set, then each additional prefix in declaration
/// order.
pub open spec fn static_split(opts: PrefixFrameworkOptions, content: Seq<char>) -> Option<
    (Seq<char>, Seq<char>),
> {
    match opts.prefix {
        Some(p) => match literal_split(p@, content) {
            Some(r) => Some(r),
            None => additional_split(opts.additional_prefixes@, content),
        },
        None => additional_split(opts.additional_prefixes@, content),
    }
}

/// A mention of the bot, where mentions are enabled as prefixes.
pub open spec fn mention_or_none(opts: PrefixFrameworkOptions, bot_id: u64, content: Seq<char>) -> Option<
    (Seq<char>, Seq<char>),
> {
    if opts.mention_as_prefix {
        mention_split(bot_id, content)
    } else {
        None
    }
}

/// Full resolution, given the values the dynamic callbacks produced
/// (`None` where a callback is not installed or produced nothing). The
/// strategies run in priority order and the first successful one wins: a
/// split produced by the stripping callback; a prefix produced by the
/// dynamic callback that the message starts with; the static prefix and the
/// additional prefixes in declaration order; a mention of the bot last.
pub open spec fn spec_resolve(
    opts: PrefixFrameworkOptions,
    content: Seq<char>,
    bot_id: u64,
    stripped: Option<(Seq<char>, Seq<char>)>,
    dynamic: Option<Seq<char>>,
) -> Option<(Seq<char>, Seq<char>)> {
    if opts.stripped_dynamic_prefix && stripped is Some {
        stripped
    } else if opts.dynamic_prefix && dynamic is Some && literal_split(
        dynamic->Some_0,
        content,
    ) is Some {
        literal_split(dynamic->Some_0, content)
    } else {
        match static_split(opts, content) {
            Some(r) => Some(r),
            None => mention_or_none(opts, bot_id, content),
        }
    }
}

/// The outcome of prefix resolution: the prefix the user wrote and the text
/// after it, or no match.
pub enum PrefixResolution {
    /// The message begins with a recognized prefix.
    Matched {
        /// The prefix as it stands in the message.
        prefix: String,
        /// The message text after the prefix.
        rest: String,
    },
    /// The message carries no recognized prefix.
    NoMatch,
}

impl PrefixResolution {
    /// The split as the specification states it.
    pub open spec fn view(&self) -> Option<(Seq<char>, Seq<char>)> {
        match self {
            PrefixResolution::Matched { prefix, rest } => Some((prefix@, rest@)),
            PrefixResolution::NoMatch => None,
        }
    }
}

/// Strip a leading mention of the bot's own account, in either form, along
/// with the whitespace right after it.
fn strip_mention(content: &str, bot_id: u64) -> (r: Option<(String, String)>)
    ensures
        match r {
            Some(pair) => mention_split(bot_id, content@) == Some((pair.0@, pair.1@)),
            None => mention_split(bot_id, content@) is None,
        },
{
    let mut plain: Vec<char> = Vec::new();
    plain.push('<');
    plain.push('@');
    push_digits(bot_id, &mut plain);
    plain.push('>');
    proof {
        assert(plain@ =~= mention_text(bot_id, false));
    }
    let mut nick: Vec<char> = Vec::new();
    nick.push('<');
    nick.push('@');
    nick.push('!');
    push_digits(bot_id, &mut nick);
    nick.push('>');
    proof {
        assert(nick@ =~= mention_text(bot_id, true));
    }
    let n = content.unicode_len();
    let plain_hit = starts_with_chars(content, &plain);
    let hit_len = if plain_hit {
        plain.len()
    } else if starts_with_chars(content, &nick) {
        nick.len()
    } else {
        return None;
    };
    let j = hit_len + count_spaces_from(content, hit_len);
    let prefix = content.substring_char(0, j).to_owned();
    let rest = content.substring_char(j, n).to_owned();
    Some((prefix, rest))
}

/// `content` begins with exactly the characters of `p`.
fn starts_with_chars(content: &str, p: &Vec<char>) -> (r: bool)
    ensures
        r == is_prefix_of(p@, content@),
{
    let n = content.unicode_len();
    let m = p.len();
    if m > n {
        return false;
    }
    let mut i: usize = 0;
    while i < m
        invariant
            n == content@.len(),
            m == p@.len(),
            m <= n,
            0 <= i <= m,
            forall|j: int| 0 <= j < i ==> content@[j] == p@[j],
        decreases m - i,
    {
        if content.get_char(i) != p[i] {
            proof {
                assert(content@.subrange(0, m as int)[i as int] != p@[i as int]);
            }
            return false;
        }
        i = i + 1;
    }
    proof {
        assert(content@.subrange(0, m as int) =~= p@);
    }
    true
}

/// Try the static prefix, the additional prefixes in order, then a mention.
fn resolve_static(opts: &PrefixFrameworkOptions, content: &str, bot_id: u64) -> (r: PrefixResolution)
    ensures
        r@ == (match static_split(*opts, content@) {
            Some(p) => Some(p),
            None => mention_or_none(*opts, bot_id, content@),
        }),
{
    if let Some(p) = &opts.prefix {
        if let Some(rest) = strip_literal(content, p.as_str()) {
            return PrefixResolution::Matched { prefix: p.clone(), rest };
        }
    }
    let n = opts.additional_prefixes.len();
    let mut k: usize = 0;
    proof {
        assert(opts.additional_prefixes@.skip(0) =~= opts.additional_prefixes@);
    }
    while k < n
        invariant
            n == opts.additional_prefixes@.len(),
            0 <= k <= n,
            additional_split(opts.additional_prefixes@.skip(k as int), content@)
                == additional_split(opts.additional_prefixes@, content@),
            match opts.prefix {
                Some(p) => literal_split(p@, content@) is None,
                None => true,
            },
        decreases n - k,
    {
        proof {
            assert(opts.additional_prefixes@.skip(k as int)[0] == opts.additional_prefixes@[k as int]);
        }
        match &opts.additional_prefixes[k] {
            Prefix::Literal(p) => {
                if let Some(rest) = strip_literal(content, p.as_str()) {
                    return PrefixResolution::Matched { prefix: p.clone(), rest };
                }
            },
            Prefix::Regex(p) => {
                if let Some(pair) = match_pattern_prefix(p, content) {
                    return PrefixResolution::Matched { prefix: pair.0, rest: pair.1 };
                }
            },
        }
        k = k + 1;
        proof {
            assert(opts.additional_prefixes@.skip(k - 1 as int).drop_first()
                =~= opts.additional_prefixes@.skip(k as int));
        }
    }
    proof {
        assert(opts.additional_prefixes@.skip(n as int) =~= Seq::<Prefix>::empty());
    }
    if opts.mention_as_prefix {
        if let Some(pair) = strip_mention(content, bot_id) {
            return PrefixResolution::Matched { prefix: pair.0, rest: pair.1 };
        }
    }
    PrefixResolution::NoMatch
}

/// Resolve the prefix of a message. `stripped` and `dynamic` carry what the
/// respective callbacks produced; pass `None` where a callback is not
/// installed or produced nothing.
pub fn resolve_prefix(
    opts: &PrefixFrameworkOptions,
    content: &str,
    bot_id: u64,
    stripped: Option<(String, String)>,
    dynamic: &Option<String>,
) -> (r: PrefixResolution)
    ensures
        r@ == spec_resolve(*opts, content@, bot_id, pair_view(stripped), opt_view(*dynamic)),
{
    if opts.stripped_dynamic_prefix {
        if let Some(pair) = stripped {
            return PrefixResolution::Matched { prefix: pair.0, rest: pair.1 };
        }
    }
    if opts.dynamic_prefix {
        if let Some(p) = dynamic {
            if let Some(rest) = strip_literal(content, p.as_str()) {
                return PrefixResolution::Matched { prefix: p.clone(), rest };
            }
        }
    }
    resolve_static(opts, content, bot_id)
}

/// The views of an optional pair of strings.
pub open spec fn pair_view(o: Option<(String, String)>) -> Option<(Seq<char>, Seq<char>)> {
    match o {
        Some(pair) => Some((pair.0@, pair.1@)),
        None => None,
    }
}

/// The view of an optional string.
pub open spec fn opt_view(o: Option<String>) -> Option<Seq<char>> {
    match o {
        Some(s) => Some(s@),
        None => None,
    }
}

} // verus!
