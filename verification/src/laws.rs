//! Laws of the dispatch core, stated and proved over the same spec
//! functions the executable contracts use.
use vstd::prelude::*;

use crate::dispatch::{
    edited_message_post, guard_post, new_message_post, DispatchOutcome, DispatchPhase, Directive,
    GuardResult,
};
use crate::pattern::{regex_anchored_split, regex_leftmost};
use crate::resolver::{additional_split, literal_split, prefix_split, spec_resolve};
use crate::structs::{CommandTree, MessageInfo, PrefixFrameworkOptions};
use crate::text::{is_prefix_of, name_matches};
use crate::tracker::spec_lookup;
use crate::tree::{
    lemma_name_matches_joins, lemma_node_matches_words, node_matches, node_words, nodes_collide,
    siblings_distinct, spec_find,
};
use crate::structs::PrefixCommandMeta;

verus! {

/// Stripping a literal prefix loses and adds no characters: the message is
/// exactly the prefix followed by the rest.
pub proof fn law_literal_split_lossless(p: Seq<char>, content: Seq<char>)
    requires
        is_prefix_of(p, content),
    ensures
        literal_split(p, content) matches Some(pair) && pair.0 == p && pair.0 + pair.1 == content,
{
    assert(p + content.subrange(p.len() as int, content.len() as int) =~= content);
}

/// A message beginning with the configured static prefix resolves to that
/// prefix and exactly the text after it, when no dynamic callback produced
/// anything.
pub proof fn law_static_prefix_resolution(
    opts: PrefixFrameworkOptions,
    content: Seq<char>,
    bot_id: u64,
    p: String,
)
    requires
        opts.prefix == Some(p),
        is_prefix_of(p@, content),
    ensures
        spec_resolve(opts, content, bot_id, None, None) matches Some(pair) && pair.0 == p@
            && pair.0 + pair.1 == content,
{
    law_literal_split_lossless(p@, content);
}

/// A literal among the additional prefixes, reached because everything
/// before it failed, also strips exactly: the message is the matched prefix
/// followed by the rest.
pub proof fn law_additional_literal_prefix(
    prefixes: Seq<crate::structs::Prefix>,
    k: int,
    content: Seq<char>,
)
    requires
        0 <= k < prefixes.len(),
        forall|j: int| 0 <= j < k ==> prefix_split(#[trigger] prefixes[j], content) is None,
        prefixes[k] matches crate::structs::Prefix::Literal(p) && is_prefix_of(p@, content),
    ensures
        additional_split(prefixes, content) matches Some(pair) && pair.0 + pair.1 == content,
    decreases k,
{
    if k == 0 {
        if let crate::structs::Prefix::Literal(p) = prefixes[0] {
            law_literal_split_lossless(p@, content);
        }
    } else {
        assert(forall|j: int| 0 <= j < k - 1 ==> prefixes.drop_first()[j] == prefixes[j + 1]);
        law_additional_literal_prefix(prefixes.drop_first(), k - 1, content);
    }
}

/// A pattern that matches the message only later than its start produces no
/// prefix match.
pub proof fn law_pattern_anchored(pattern: Seq<char>, content: Seq<char>)
    requires
        regex_leftmost(pattern, content) matches Some(m) && m.0 != 0,
    ensures
        regex_anchored_split(pattern, content) is None,
{
}

/// The stripping dynamic callback takes priority: whenever it produced a
/// split, resolution returns that split, whatever the static prefixes or the
/// dynamic callback would say.
pub proof fn law_stripped_priority(
    opts: PrefixFrameworkOptions,
    content: Seq<char>,
    bot_id: u64,
    sp: Seq<char>,
    srest: Seq<char>,
    dynamic: Option<Seq<char>>,
)
    requires
        opts.stripped_dynamic_prefix,
    ensures
        spec_resolve(opts, content, bot_id, Some((sp, srest)), dynamic) == Some((sp, srest)),
{
}

/// A prefix from the dynamic callback that the message does not start with
/// is a failed strategy: the static prefix is still tried, and strips
/// exactly when it matches.
pub proof fn law_dynamic_miss_falls_through(
    opts: PrefixFrameworkOptions,
    content: Seq<char>,
    bot_id: u64,
    d: Seq<char>,
    p: String,
)
    requires
        opts.dynamic_prefix,
        !is_prefix_of(d, content),
        opts.prefix == Some(p),
        is_prefix_of(p@, content),
    ensures
        spec_resolve(opts, content, bot_id, None, Some(d)) matches Some(pair) && pair.0 == p@
            && pair.0 + pair.1 == content,
{
    law_literal_split_lossless(p@, content);
}

/// A message authored by the bot itself, with self-execution off, ends
/// skipped at once: no callback is queried and no command runs.
pub proof fn law_self_message_skipped(
    opts: PrefixFrameworkOptions,
    tree: CommandTree,
    msg: MessageInfo,
    bot_id: u64,
    r: (DispatchPhase, Directive),
)
    requires
        new_message_post(opts, tree, msg, bot_id, r),
        msg.author_id == bot_id,
        !opts.execute_self_messages,
    ensures
        r.0 matches DispatchPhase::Finished { outcome: DispatchOutcome::SkippedSelf },
        r.1 is Finish,
        !(r.1 is QueryStrippedPrefix),
        !(r.1 is QueryDynamicPrefix),
        !(r.1 is RunGuard),
        !(r.1 is RunAction),
{
}

/// A clean guard rejection ends the attempt silently: the action is never
/// invoked and no error hook is invoked.
pub proof fn law_guard_rejection_silent(phase: DispatchPhase, r: (DispatchPhase, Directive))
    requires
        phase is AwaitGuard,
        guard_post(phase, GuardResult::Rejected, r),
    ensures
        r.0 matches DispatchPhase::Finished { outcome: DispatchOutcome::GuardRejected },
        r.1 is Finish,
        !(r.1 is RunAction),
        !(r.1 is ReportError),
{
}

/// A guard failure routes exactly one error report, at the guard-check
/// location, and never invokes the action.
pub proof fn law_guard_failure_reported(phase: DispatchPhase, r: (DispatchPhase, Directive))
    requires
        phase is AwaitGuard,
        guard_post(phase, GuardResult::Failed, r),
    ensures
        r.0 is Finished,
        r.1 matches Directive::ReportError {
            location: crate::structs::CommandErrorLocation::GuardCheck,
            ..
        },
        !(r.1 is RunAction),
{
}

/// An edit of a message with a tracker entry re-runs the pipeline targeting
/// the recorded response: the action directive says to edit that response in
/// place, not to send a new message.
pub proof fn law_tracked_edit_reuses_response(
    opts: PrefixFrameworkOptions,
    tree: CommandTree,
    msg: MessageInfo,
    bot_id: u64,
    rid: u64,
    prefix: Seq<char>,
    rest: Seq<char>,
    path: Seq<usize>,
    args: Seq<char>,
    r: (DispatchPhase, Directive),
)
    requires
        edited_message_post(opts, tree, msg, bot_id, r),
        opts.execute_self_messages || msg.author_id != bot_id,
        opts.edit_tracker is Some,
        spec_lookup(opts.edit_tracker->Some_0@, msg.msg_id) == Some(rid),
        !opts.stripped_dynamic_prefix,
        !opts.dynamic_prefix,
        spec_resolve(opts, msg.content@, bot_id, None, None) == Some((prefix, rest)),
        spec_find(tree, rest, opts.case_insensitive_commands) == Some((path, args)),
        !tree.nodes@[path.last() as int].command.options.check,
    ensures
        r.0 matches DispatchPhase::AwaitAction { inv } && inv.edit_target == Some(rid),
        r.1 matches Directive::RunAction { edit_target, .. } && edit_target == Some(rid),
{
}

/// An edit of a message with no tracker entry runs the full pipeline as a
/// brand-new message — with nothing to edit in place — exactly when
/// untracked edits are executed and cache misses are not ignored.
pub proof fn law_untracked_edit_runs(
    opts: PrefixFrameworkOptions,
    tree: CommandTree,
    msg: MessageInfo,
    bot_id: u64,
    prefix: Seq<char>,
    rest: Seq<char>,
    path: Seq<usize>,
    args: Seq<char>,
    r: (DispatchPhase, Directive),
)
    requires
        edited_message_post(opts, tree, msg, bot_id, r),
        opts.execute_self_messages || msg.author_id != bot_id,
        opts.edit_tracker is Some,
        spec_lookup(opts.edit_tracker->Some_0@, msg.msg_id) is None,
        opts.execute_untracked_edits,
        !opts.ignore_edit_tracker_cache,
        !opts.stripped_dynamic_prefix,
        !opts.dynamic_prefix,
        spec_resolve(opts, msg.content@, bot_id, None, None) == Some((prefix, rest)),
        spec_find(tree, rest, opts.case_insensitive_commands) == Some((path, args)),
        !tree.nodes@[path.last() as int].command.options.check,
    ensures
        r.1 matches Directive::RunAction { edit_target, .. } && edit_target == None::<u64>,
{
}

/// An edit of a message with no tracker entry is ignored — no callback, no
/// command, no error hook — when untracked edits are not executed or cache
/// misses are ignored.
pub proof fn law_untracked_edit_ignored(
    opts: PrefixFrameworkOptions,
    tree: CommandTree,
    msg: MessageInfo,
    bot_id: u64,
    r: (DispatchPhase, Directive),
)
    requires
        edited_message_post(opts, tree, msg, bot_id, r),
        opts.execute_self_messages || msg.author_id != bot_id,
        opts.edit_tracker is Some,
        spec_lookup(opts.edit_tracker->Some_0@, msg.msg_id) is None,
        !(opts.execute_untracked_edits && !opts.ignore_edit_tracker_cache),
    ensures
        r.0 matches DispatchPhase::Finished { outcome: DispatchOutcome::EditIgnored },
        r.1 is Finish,
        !(r.1 is RunAction),
        !(r.1 is ReportError),
{
}


/// Under the tree invariant — no two siblings share a name or alias — at
/// most one sibling matches any given word, so the declaration-order
/// tie-break never hides a second match.
pub proof fn law_lookup_unambiguous(
    nodes: Seq<PrefixCommandMeta>,
    idxs: Seq<usize>,
    ci: bool,
    word: Seq<char>,
    p: int,
    q: int,
)
    requires
        siblings_distinct(nodes, idxs, ci),
        0 <= p < q < idxs.len(),
        node_matches(nodes[idxs[p] as int], word, ci),
    ensures
        !node_matches(nodes[idxs[q] as int], word, ci),
{
    let a = nodes[idxs[p] as int];
    let b = nodes[idxs[q] as int];
    if node_matches(b, word, ci) {
        lemma_node_matches_words(a, word, ci);
        lemma_node_matches_words(b, word, ci);
        let i = choose|i: int|
            0 <= i < node_words(a).len() && name_matches(word, #[trigger] node_words(a)[i], ci);
        let j = choose|j: int|
            0 <= j < node_words(b).len() && name_matches(word, #[trigger] node_words(b)[j], ci);
        lemma_name_matches_joins(word, node_words(a)[i], node_words(b)[j], ci);
        assert(nodes_collide(a, b, ci));
    }
}

} // verus!
