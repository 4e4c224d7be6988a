//! The dispatcher: a state machine that orchestrates one processing attempt
//! for one message (new or edited). Every asynchronous callback — dynamic
//! prefix strategies, the guard, the action — runs outside this core: the
//! machine hands out a directive saying what to invoke, and takes the
//! callback's value back as the next event.
use vstd::prelude::*;

use crate::resolver::{resolve_prefix, spec_resolve, PrefixResolution};
use crate::structs::{
    msg_eq, CommandErrorLocation, CommandTree, MessageInfo, PrefixContext, PrefixFrameworkOptions,
};
use crate::tracker::{spec_lookup, EditTracker};
use crate::tree::{find_command, spec_find};

verus! {

/// What the stripping dynamic-prefix callback produced.
pub enum StrippedPrefixResult {
    /// The callback split the message itself.
    Match {
        /// The prefix as the callback reports it.
        prefix: String,
        /// The text after the prefix.
        rest: String,
    },
    /// The callback declined the message.
    Pass,
    /// The callback failed with an error.
    Failed,
}

/// What the prefix-returning dynamic callback produced.
pub enum DynamicPrefixResult {
    /// The callback chose a prefix to check the message against.
    Prefix {
        /// The prefix to check.
        value: String,
    },
    /// The callback chose no prefix.
    Pass,
    /// The callback failed with an error.
    Failed,
}

/// What the guard callback produced.
pub enum GuardResult {
    /// The guard allows the command.
    Passed,
    /// The guard cleanly rejects the command; not an error.
    Rejected,
    /// The guard failed with an error.
    Failed,
}

/// What the command action produced.
pub enum ActionResult {
    /// The action ran to completion; the identifier of the response it sent
    /// or edited, where one is known.
    Completed {
        /// Identifier of the bot's response message.
        response_id: Option<u64>,
    },
    /// The action's own logic failed with an error.
    Failed,
    /// The platform send or edit of the response failed.
    TransportFailed,
}

/// A resolved invocation waiting on its guard or its action.
pub struct PendingInvocation {
    /// The triggering message.
    pub msg: MessageInfo,
    /// The prefix the user wrote.
    pub prefix: String,
    /// Arena index of the matched command.
    pub command: usize,
    /// The argument text after the matched command words.
    pub args: String,
    /// Whether to broadcast a typing indicator while the action runs.
    pub broadcast_typing: bool,
    /// Whether the command tracks edits of its triggering message.
    pub track_edits: bool,
    /// The existing response to edit in place, for a re-invocation driven by
    /// a message edit.
    pub edit_target: Option<u64>,
}

/// How one processing attempt ended.
pub enum DispatchOutcome {
    /// The message was authored by the bot itself and self-execution is off.
    SkippedSelf,
    /// No prefix strategy matched; silently not an error.
    NoPrefix,
    /// No command matched the text after the prefix; silently not an error.
    NoCommand,
    /// The guard cleanly rejected the command; silently not an error.
    GuardRejected,
    /// A step failed; the error was routed to an error hook.
    Errored {
        /// The step that failed.
        location: CommandErrorLocation,
    },
    /// The action ran to completion.
    Completed,
    /// An edit with no tracker entry was ignored under the configured
    /// policy, or no tracker is configured.
    EditIgnored,
}

/// Where one processing attempt stands.
pub enum DispatchPhase {
    /// Waiting on the stripping dynamic-prefix callback.
    AwaitStripped {
        /// The message being processed.
        msg: MessageInfo,
        /// The existing response to edit in place, if any.
        edit_target: Option<u64>,
    },
    /// Waiting on the prefix-returning dynamic callback.
    AwaitDynamic {
        /// The message being processed.
        msg: MessageInfo,
        /// The existing response to edit in place, if any.
        edit_target: Option<u64>,
    },
    /// Waiting on the guard callback.
    AwaitGuard {
        /// The resolved invocation.
        inv: PendingInvocation,
    },
    /// Waiting on the command action.
    AwaitAction {
        /// The resolved invocation.
        inv: PendingInvocation,
    },
    /// The attempt is over.
    Finished {
        /// How it ended.
        outcome: DispatchOutcome,
    },
}

/// What the surroundings must do next.
pub enum Directive {
    /// Invoke the stripping dynamic-prefix callback on the message.
    QueryStrippedPrefix,
    /// Invoke the prefix-returning dynamic callback on the message.
    QueryDynamicPrefix,
    /// Invoke the guard callback of the command.
    RunGuard {
        /// Arena index of the command.
        command: usize,
    },
    /// Invoke the command action, after a typing indicator if asked for.
    RunAction {
        /// Arena index of the command.
        command: usize,
        /// The prefix the user wrote.
        prefix: String,
        /// The argument text.
        args: String,
        /// Whether to broadcast a typing indicator first, as a non-blocking
        /// side effect.
        broadcast_typing: bool,
        /// The existing response to edit in place instead of sending a new
        /// message, if any.
        edit_target: Option<u64>,
    },
    /// Route an error to the command's own error hook if it has one, else to
    /// the framework-wide hook.
    ReportError {
        /// The step that failed.
        location: CommandErrorLocation,
        /// Arena index of the command being processed, if one was matched.
        command: Option<usize>,
        /// The existing response targeted by user-visible error rendering.
        edit_target: Option<u64>,
        /// A snapshot of the invocation context for the hook: the message,
        /// the resolved prefix (empty while none was resolved yet), and the
        /// matched command.
        ctx: PrefixContext,
    },
    /// Nothing left to do for this attempt.
    Finish,
}

/// What to record in the edit tracker.
pub enum TrackerOp {
    /// Nothing.
    Keep,
    /// Record the response to a triggering message.
    Register {
        /// Identifier of the triggering message.
        trigger: u64,
        /// Identifier of the response.
        response: u64,
    },
}

/// The invocation `inv` carries the message, prefix, matched command, and
/// argument text of a resolution, with the command's own flags.
pub open spec fn inv_ok(
    inv: PendingInvocation,
    tree: CommandTree,
    msg: MessageInfo,
    prefix: Seq<char>,
    path: Seq<usize>,
    args: Seq<char>,
    edit_target: Option<u64>,
) -> bool {
    &&& msg_eq(inv.msg, msg)
    &&& inv.prefix@ == prefix
    &&& path.len() > 0
    &&& inv.command == path.last()
    &&& inv.args@ == args
    &&& inv.edit_target == edit_target
    &&& inv.broadcast_typing == tree.nodes@[path.last() as int].command.options.broadcast_typing
    &&& inv.track_edits == tree.nodes@[path.last() as int].command.options.track_edits
}

/// What follows a prefix resolution: end silently on no prefix or no
/// command; otherwise hold the invocation and ask for the guard if the
/// command has one, else for the action.
pub open spec fn proceed_post(
    opts: PrefixFrameworkOptions,
    tree: CommandTree,
    msg: MessageInfo,
    edit_target: Option<u64>,
    reso: Option<(Seq<char>, Seq<char>)>,
    r: (DispatchPhase, Directive),
) -> bool {
    match reso {
        None => r.0 matches DispatchPhase::Finished { outcome: DispatchOutcome::NoPrefix }
            && r.1 is Finish,
        Some(pr) => match spec_find(tree, pr.1, opts.case_insensitive_commands) {
            None => r.0 matches DispatchPhase::Finished { outcome: DispatchOutcome::NoCommand }
                && r.1 is Finish,
            Some(f) => {
                let c = f.0.last();
                if tree.nodes@[c as int].command.options.check {
                    &&& r.0 matches DispatchPhase::AwaitGuard { inv } && inv_ok(
                        inv,
                        tree,
                        msg,
                        pr.0,
                        f.0,
                        f.1,
                        edit_target,
                    )
                    &&& r.1 matches Directive::RunGuard { command } && command == c
                } else {
                    &&& r.0 matches DispatchPhase::AwaitAction { inv } && inv_ok(
                        inv,
                        tree,
                        msg,
                        pr.0,
                        f.0,
                        f.1,
                        edit_target,
                    )
                    &&& r.1 matches Directive::RunAction {
                        command,
                        prefix,
                        args,
                        broadcast_typing,
                        edit_target: et,
                    } && command == c && prefix@ == pr.0 && args@ == f.1 && broadcast_typing
                        == tree.nodes@[c as int].command.options.broadcast_typing && et
                        == edit_target
                }
            },
        },
    }
}

/// Entry into the pipeline, after the self-message gate: query the stripping
/// callback if installed, else the dynamic callback if installed, else
/// resolve against the static prefixes and a mention at once.
pub open spec fn entry_post(
    opts: PrefixFrameworkOptions,
    tree: CommandTree,
    msg: MessageInfo,
    bot_id: u64,
    edit_target: Option<u64>,
    r: (DispatchPhase, Directive),
) -> bool {
    if opts.stripped_dynamic_prefix {
        &&& r.0 matches DispatchPhase::AwaitStripped { msg: m, edit_target: et } && msg_eq(m, msg)
            && et == edit_target
        &&& r.1 is QueryStrippedPrefix
    } else if opts.dynamic_prefix {
        &&& r.0 matches DispatchPhase::AwaitDynamic { msg: m, edit_target: et } && msg_eq(m, msg)
            && et == edit_target
        &&& r.1 is QueryDynamicPrefix
    } else {
        proceed_post(
            opts,
            tree,
            msg,
            edit_target,
            spec_resolve(opts, msg.content@, bot_id, None, None),
            r,
        )
    }
}

/// A new message: skipped outright when the bot authored it and
/// self-execution is off; the pipeline entry otherwise, with nothing to
/// edit in place.
pub open spec fn new_message_post(
    opts: PrefixFrameworkOptions,
    tree: CommandTree,
    msg: MessageInfo,
    bot_id: u64,
    r: (DispatchPhase, Directive),
) -> bool {
    if !opts.execute_self_messages && msg.author_id == bot_id {
        r.0 matches DispatchPhase::Finished { outcome: DispatchOutcome::SkippedSelf }
            && r.1 is Finish
    } else {
        entry_post(opts, tree, msg, bot_id, None, r)
    }
}

/// An edited message: the self-message gate first; without a tracker the
/// edit is ignored; with a tracker entry the pipeline re-runs targeting the
/// recorded response; on a cache miss the pipeline runs as for a new message
/// exactly when untracked edits are executed and cache misses are not
/// ignored.
pub open spec fn edited_message_post(
    opts: PrefixFrameworkOptions,
    tree: CommandTree,
    msg: MessageInfo,
    bot_id: u64,
    r: (DispatchPhase, Directive),
) -> bool {
    if !opts.execute_self_messages && msg.author_id == bot_id {
        r.0 matches DispatchPhase::Finished { outcome: DispatchOutcome::SkippedSelf }
            && r.1 is Finish
    } else {
        match opts.edit_tracker {
            None => r.0 matches DispatchPhase::Finished { outcome: DispatchOutcome::EditIgnored }
                && r.1 is Finish,
            Some(t) => match spec_lookup(t@, msg.msg_id) {
                Some(rid) => entry_post(opts, tree, msg, bot_id, Some(rid), r),
                None => if opts.execute_untracked_edits && !opts.ignore_edit_tracker_cache {
                    entry_post(opts, tree, msg, bot_id, None, r)
                } else {
                    r.0 matches DispatchPhase::Finished {
                        outcome: DispatchOutcome::EditIgnored,
                    } && r.1 is Finish
                },
            },
        }
    }
}

/// The step taken on the stripping callback's value.
pub open spec fn stripped_post(
    opts: PrefixFrameworkOptions,
    tree: CommandTree,
    phase: DispatchPhase,
    result: StrippedPrefixResult,
    bot_id: u64,
    r: (DispatchPhase, Directive),
) -> bool {
    match phase {
        DispatchPhase::AwaitStripped { msg, edit_target } => match result {
            StrippedPrefixResult::Match { prefix, rest } => proceed_post(
                opts,
                tree,
                msg,
                edit_target,
                Some((prefix@, rest@)),
                r,
            ),
            StrippedPrefixResult::Pass => if opts.dynamic_prefix {
                &&& r.0 matches DispatchPhase::AwaitDynamic { msg: m, edit_target: et } && msg_eq(
                    m,
                    msg,
                ) && et == edit_target
                &&& r.1 is QueryDynamicPrefix
            } else {
                proceed_post(
                    opts,
                    tree,
                    msg,
                    edit_target,
                    spec_resolve(opts, msg.content@, bot_id, None, None),
                    r,
                )
            },
            StrippedPrefixResult::Failed => {
                &&& r.0 matches DispatchPhase::Finished {
                    outcome: DispatchOutcome::Errored {
                        location: CommandErrorLocation::PrefixResolution,
                    },
                }
                &&& r.1 matches Directive::ReportError {
                    location: CommandErrorLocation::PrefixResolution,
                    command: None,
                    edit_target: et,
                    ctx,
                } && et == edit_target && msg_eq(ctx.msg, msg) && ctx.prefix@.len() == 0
                    && ctx.command is None
            },
        },
        _ => true,
    }
}

/// The step taken on the dynamic callback's value.
pub open spec fn dynamic_post(
    opts: PrefixFrameworkOptions,
    tree: CommandTree,
    phase: DispatchPhase,
    result: DynamicPrefixResult,
    bot_id: u64,
    r: (DispatchPhase, Directive),
) -> bool {
    match phase {
        DispatchPhase::AwaitDynamic { msg, edit_target } => match result {
            DynamicPrefixResult::Prefix { value } => proceed_post(
                opts,
                tree,
                msg,
                edit_target,
                spec_resolve(opts, msg.content@, bot_id, None, Some(value@)),
                r,
            ),
            DynamicPrefixResult::Pass => proceed_post(
                opts,
                tree,
                msg,
                edit_target,
                spec_resolve(opts, msg.content@, bot_id, None, None),
                r,
            ),
            DynamicPrefixResult::Failed => {
                &&& r.0 matches DispatchPhase::Finished {
                    outcome: DispatchOutcome::Errored {
                        location: CommandErrorLocation::PrefixResolution,
                    },
                }
                &&& r.1 matches Directive::ReportError {
                    location: CommandErrorLocation::PrefixResolution,
                    command: None,
                    edit_target: et,
                    ctx,
                } && et == edit_target && msg_eq(ctx.msg, msg) && ctx.prefix@.len() == 0
                    && ctx.command is None
            },
        },
        _ => true,
    }
}

/// The snapshot `ctx` is the invocation context of `inv`.
pub open spec fn ctx_of_inv(ctx: PrefixContext, inv: PendingInvocation) -> bool {
    msg_eq(ctx.msg, inv.msg) && ctx.prefix@ == inv.prefix@ && ctx.command == Some(inv.command)
}

/// The side report taken on the typing indicator's outcome, which precedes
/// the action of a command that broadcasts typing: a failed emission is
/// routed to an error hook at the transport location; the pending action is
/// not gated or cancelled, so the phase is left alone.
pub open spec fn typing_post(phase: DispatchPhase, ok: bool, r: Option<Directive>) -> bool {
    match phase {
        DispatchPhase::AwaitAction { inv } => if ok {
            r is None
        } else {
            r matches Some(Directive::ReportError {
                location: CommandErrorLocation::Transport,
                command: Some(c),
                edit_target: et,
                ctx,
            }) && c == inv.command && et == inv.edit_target && ctx_of_inv(ctx, inv)
        },
        _ => true,
    }
}

/// The step taken on the guard's answer: the action on a pass, a silent end
/// on a clean rejection, an error report at the guard-check location on a
/// failure.
pub open spec fn guard_post(
    phase: DispatchPhase,
    result: GuardResult,
    r: (DispatchPhase, Directive),
) -> bool {
    match phase {
        DispatchPhase::AwaitGuard { inv } => match result {
            GuardResult::Passed => {
                &&& r.0 matches DispatchPhase::AwaitAction { inv: inv2 } && inv2 == inv
                &&& r.1 matches Directive::RunAction {
                    command,
                    prefix,
                    args,
                    broadcast_typing,
                    edit_target,
                } && command == inv.command && prefix@ == inv.prefix@ && args@ == inv.args@
                    && broadcast_typing == inv.broadcast_typing && edit_target == inv.edit_target
            },
            GuardResult::Rejected => r.0 matches DispatchPhase::Finished {
                outcome: DispatchOutcome::GuardRejected,
            } && r.1 is Finish,
            GuardResult::Failed => {
                &&& r.0 matches DispatchPhase::Finished {
                    outcome: DispatchOutcome::Errored { location: CommandErrorLocation::GuardCheck },
                }
                &&& r.1 matches Directive::ReportError {
                    location: CommandErrorLocation::GuardCheck,
                    command: Some(c),
                    edit_target: et,
                    ctx,
                } && c == inv.command && et == inv.edit_target && ctx_of_inv(ctx, inv)
            },
        },
        _ => true,
    }
}

/// The step taken on the action's outcome, with what to record in the edit
/// tracker: a correlation exactly when the action completed with a known
/// response, the command tracks edits, and a tracker is configured.
pub open spec fn action_post(
    opts: PrefixFrameworkOptions,
    phase: DispatchPhase,
    result: ActionResult,
    r: (DispatchPhase, Directive, TrackerOp),
) -> bool {
    match phase {
        DispatchPhase::AwaitAction { inv } => match result {
            ActionResult::Completed { response_id } => {
                &&& r.0 matches DispatchPhase::Finished { outcome: DispatchOutcome::Completed }
                &&& r.1 is Finish
                &&& if inv.track_edits && opts.edit_tracker is Some && response_id is Some {
                    r.2 matches TrackerOp::Register { trigger, response } && trigger
                        == inv.msg.msg_id && Some(response) == response_id
                } else {
                    r.2 is Keep
                }
            },
            ActionResult::Failed => {
                &&& r.0 matches DispatchPhase::Finished {
                    outcome: DispatchOutcome::Errored {
                        location: CommandErrorLocation::CommandAction,
                    },
                }
                &&& r.1 matches Directive::ReportError {
                    location: CommandErrorLocation::CommandAction,
                    command: Some(c),
                    edit_target: et,
                    ctx,
                } && c == inv.command && et == inv.edit_target && ctx_of_inv(ctx, inv)
                &&& r.2 is Keep
            },
            ActionResult::TransportFailed => {
                &&& r.0 matches DispatchPhase::Finished {
                    outcome: DispatchOutcome::Errored {
                        location: CommandErrorLocation::Transport,
                    },
                }
                &&& r.1 matches Directive::ReportError {
                    location: CommandErrorLocation::Transport,
                    command: Some(c),
                    edit_target: et,
                    ctx,
                } && c == inv.command && et == inv.edit_target && ctx_of_inv(ctx, inv)
                &&& r.2 is Keep
            },
        },
        _ => true,
    }
}

fn proceed(
    opts: &PrefixFrameworkOptions,
    tree: &CommandTree,
    msg: MessageInfo,
    edit_target: Option<u64>,
    reso: PrefixResolution,
) -> (r: (DispatchPhase, Directive))
    requires
        tree.wf(),
    ensures
        proceed_post(*opts, *tree, msg, edit_target, reso@, r),
{
    match reso {
        PrefixResolution::NoMatch => (
            DispatchPhase::Finished { outcome: DispatchOutcome::NoPrefix },
            Directive::Finish,
        ),
        PrefixResolution::Matched { prefix, rest } => {
            match find_command(tree, rest.as_str(), opts.case_insensitive_commands) {
                None => (
                    DispatchPhase::Finished { outcome: DispatchOutcome::NoCommand },
                    Directive::Finish,
                ),
                Some(p) => {
                    let (path, args) = p;
                    let c = path[path.len() - 1];
                    let broadcast_typing = tree.nodes[c].command.options.broadcast_typing;
                    let track_edits = tree.nodes[c].command.options.track_edits;
                    if tree.nodes[c].command.options.check {
                        let inv = PendingInvocation {
                            msg,
                            prefix,
                            command: c,
                            args,
                            broadcast_typing,
                            track_edits,
                            edit_target,
                        };
                        (DispatchPhase::AwaitGuard { inv }, Directive::RunGuard { command: c })
                    } else {
                        let dir = Directive::RunAction {
                            command: c,
                            prefix: prefix.clone(),
                            args: args.clone(),
                            broadcast_typing,
                            edit_target,
                        };
                        let inv = PendingInvocation {
                            msg,
                            prefix,
                            command: c,
                            args,
                            broadcast_typing,
                            track_edits,
                            edit_target,
                        };
                        (DispatchPhase::AwaitAction { inv }, dir)
                    }
                },
            }
        },
    }
}

fn start_pipeline(
    opts: &PrefixFrameworkOptions,
    tree: &CommandTree,
    msg: MessageInfo,
    bot_id: u64,
    edit_target: Option<u64>,
) -> (r: (DispatchPhase, Directive))
    requires
        tree.wf(),
    ensures
        entry_post(*opts, *tree, msg, bot_id, edit_target, r),
{
    if opts.stripped_dynamic_prefix {
        (DispatchPhase::AwaitStripped { msg, edit_target }, Directive::QueryStrippedPrefix)
    } else if opts.dynamic_prefix {
        (DispatchPhase::AwaitDynamic { msg, edit_target }, Directive::QueryDynamicPrefix)
    } else {
        let reso = resolve_prefix(opts, msg.content.as_str(), bot_id, None, &None);
        proceed(opts, tree, msg, edit_target, reso)
    }
}

/// Begin processing a newly arrived message.
pub fn begin_new_message(
    opts: &PrefixFrameworkOptions,
    tree: &CommandTree,
    msg: MessageInfo,
    bot_id: u64,
) -> (r: (DispatchPhase, Directive))
    requires
        tree.wf(),
    ensures
        new_message_post(*opts, *tree, msg, bot_id, r),
{
    if !opts.execute_self_messages && msg.author_id == bot_id {
        return (
            DispatchPhase::Finished { outcome: DispatchOutcome::SkippedSelf },
            Directive::Finish,
        );
    }
    start_pipeline(opts, tree, msg, bot_id, None)
}

/// Begin processing an edit of a message, consulting the edit tracker for a
/// recorded response to update in place.
pub fn begin_edited_message(
    opts: &PrefixFrameworkOptions,
    tree: &CommandTree,
    msg: MessageInfo,
    bot_id: u64,
) -> (r: (DispatchPhase, Directive))
    requires
        tree.wf(),
    ensures
        edited_message_post(*opts, *tree, msg, bot_id, r),
{
    if !opts.execute_self_messages && msg.author_id == bot_id {
        return (
            DispatchPhase::Finished { outcome: DispatchOutcome::SkippedSelf },
            Directive::Finish,
        );
    }
    match &opts.edit_tracker {
        None => (
            DispatchPhase::Finished { outcome: DispatchOutcome::EditIgnored },
            Directive::Finish,
        ),
        Some(t) => {
            match t.lookup(msg.msg_id) {
                Some(rid) => start_pipeline(opts, tree, msg, bot_id, Some(rid)),
                None => {
                    if opts.execute_untracked_edits && !opts.ignore_edit_tracker_cache {
                        start_pipeline(opts, tree, msg, bot_id, None)
                    } else {
                        (
                            DispatchPhase::Finished { outcome: DispatchOutcome::EditIgnored },
                            Directive::Finish,
                        )
                    }
                },
            }
        },
    }
}

/// Take the stripping callback's value.
pub fn on_stripped_result(
    opts: &PrefixFrameworkOptions,
    tree: &CommandTree,
    phase: DispatchPhase,
    result: StrippedPrefixResult,
    bot_id: u64,
) -> (r: (DispatchPhase, Directive))
    requires
        tree.wf(),
        phase is AwaitStripped,
    ensures
        stripped_post(*opts, *tree, phase, result, bot_id, r),
{
    match phase {
        DispatchPhase::AwaitStripped { msg, edit_target } => match result {
            StrippedPrefixResult::Match { prefix, rest } => proceed(
                opts,
                tree,
                msg,
                edit_target,
                PrefixResolution::Matched { prefix, rest },
            ),
            StrippedPrefixResult::Pass => {
                if opts.dynamic_prefix {
                    (DispatchPhase::AwaitDynamic { msg, edit_target }, Directive::QueryDynamicPrefix)
                } else {
                    let reso = resolve_prefix(opts, msg.content.as_str(), bot_id, None, &None);
                    proceed(opts, tree, msg, edit_target, reso)
                }
            },
            StrippedPrefixResult::Failed => (
                DispatchPhase::Finished {
                    outcome: DispatchOutcome::Errored {
                        location: CommandErrorLocation::PrefixResolution,
                    },
                },
                Directive::ReportError {
                    location: CommandErrorLocation::PrefixResolution,
                    command: None,
                    edit_target,
                    ctx: PrefixContext { msg, prefix: String::new(), command: None },
                },
            ),
        },
        _ => unreached(),
    }
}

/// Take the dynamic callback's value.
pub fn on_dynamic_result(
    opts: &PrefixFrameworkOptions,
    tree: &CommandTree,
    phase: DispatchPhase,
    result: DynamicPrefixResult,
    bot_id: u64,
) -> (r: (DispatchPhase, Directive))
    requires
        tree.wf(),
        phase is AwaitDynamic,
        opts.dynamic_prefix,
    ensures
        dynamic_post(*opts, *tree, phase, result, bot_id, r),
{
    match phase {
        DispatchPhase::AwaitDynamic { msg, edit_target } => match result {
            DynamicPrefixResult::Prefix { value } => {
                let dynamic = Some(value);
                let reso = resolve_prefix(opts, msg.content.as_str(), bot_id, None, &dynamic);
                proceed(opts, tree, msg, edit_target, reso)
            },
            DynamicPrefixResult::Pass => {
                let reso = resolve_prefix(opts, msg.content.as_str(), bot_id, None, &None);
                proceed(opts, tree, msg, edit_target, reso)
            },
            DynamicPrefixResult::Failed => (
                DispatchPhase::Finished {
                    outcome: DispatchOutcome::Errored {
                        location: CommandErrorLocation::PrefixResolution,
                    },
                },
                Directive::ReportError {
                    location: CommandErrorLocation::PrefixResolution,
                    command: None,
                    edit_target,
                    ctx: PrefixContext { msg, prefix: String::new(), command: None },
                },
            ),
        },
        _ => unreached(),
    }
}

/// Take the outcome of the typing-indicator emission that precedes the
/// action of a command that broadcasts typing. A failure yields a report to
/// an error hook at the transport location; it does not gate the action, so
/// the phase is borrowed and left to await it.
pub fn on_typing_result(phase: &DispatchPhase, ok: bool) -> (r: Option<Directive>)
    requires
        *phase is AwaitAction,
    ensures
        typing_post(*phase, ok, r),
{
    match phase {
        DispatchPhase::AwaitAction { inv } => {
            if ok {
                None
            } else {
                Some(
                    Directive::ReportError {
                        location: CommandErrorLocation::Transport,
                        command: Some(inv.command),
                        edit_target: inv.edit_target,
                        ctx: invocation_context(inv),
                    },
                )
            }
        },
        _ => unreached(),
    }
}

/// Take the guard's answer.
pub fn on_guard_result(phase: DispatchPhase, result: GuardResult) -> (r: (DispatchPhase, Directive))
    requires
        phase is AwaitGuard,
    ensures
        guard_post(phase, result, r),
{
    match phase {
        DispatchPhase::AwaitGuard { inv } => match result {
            GuardResult::Passed => {
                let dir = Directive::RunAction {
                    command: inv.command,
                    prefix: inv.prefix.clone(),
                    args: inv.args.clone(),
                    broadcast_typing: inv.broadcast_typing,
                    edit_target: inv.edit_target,
                };
                (DispatchPhase::AwaitAction { inv }, dir)
            },
            GuardResult::Rejected => (
                DispatchPhase::Finished { outcome: DispatchOutcome::GuardRejected },
                Directive::Finish,
            ),
            GuardResult::Failed => (
                DispatchPhase::Finished {
                    outcome: DispatchOutcome::Errored {
                        location: CommandErrorLocation::GuardCheck,
                    },
                },
                Directive::ReportError {
                    location: CommandErrorLocation::GuardCheck,
                    command: Some(inv.command),
                    edit_target: inv.edit_target,
                    ctx: invocation_context(&inv),
                },
            ),
        },
        _ => unreached(),
    }
}

/// Take the action's outcome; the tracker operation records the response for
/// edit tracking where the command and the configuration ask for it.
pub fn on_action_result(
    opts: &PrefixFrameworkOptions,
    phase: DispatchPhase,
    result: ActionResult,
) -> (r: (DispatchPhase, Directive, TrackerOp))
    requires
        phase is AwaitAction,
    ensures
        action_post(*opts, phase, result, r),
{
    match phase {
        DispatchPhase::AwaitAction { inv } => match result {
            ActionResult::Completed { response_id } => {
                let op = match response_id {
                    Some(rid) => {
                        if inv.track_edits && opts.edit_tracker.is_some() {
                            TrackerOp::Register { trigger: inv.msg.msg_id, response: rid }
                        } else {
                            TrackerOp::Keep
                        }
                    },
                    None => TrackerOp::Keep,
                };
                (
                    DispatchPhase::Finished { outcome: DispatchOutcome::Completed },
                    Directive::Finish,
                    op,
                )
            },
            ActionResult::Failed => (
                DispatchPhase::Finished {
                    outcome: DispatchOutcome::Errored {
                        location: CommandErrorLocation::CommandAction,
                    },
                },
                Directive::ReportError {
                    location: CommandErrorLocation::CommandAction,
                    command: Some(inv.command),
                    edit_target: inv.edit_target,
                    ctx: invocation_context(&inv),
                },
                TrackerOp::Keep,
            ),
            ActionResult::TransportFailed => (
                DispatchPhase::Finished {
                    outcome: DispatchOutcome::Errored {
                        location: CommandErrorLocation::Transport,
                    },
                },
                Directive::ReportError {
                    location: CommandErrorLocation::Transport,
                    command: Some(inv.command),
                    edit_target: inv.edit_target,
                    ctx: invocation_context(&inv),
                },
                TrackerOp::Keep,
            ),
        },
        _ => unreached(),
    }
}

/// Record a tracker operation the machine produced.
pub fn apply_tracker_op(t: &mut EditTracker, op: &TrackerOp)
    requires
        old(t).wf(),
    ensures
        final(t).wf(),
        match *op {
            TrackerOp::Keep => final(t)@ == old(t)@,
            TrackerOp::Register { trigger, response } => spec_lookup(final(t)@, trigger) == Some(
                response,
            ) && (forall|other: u64|
                other != trigger ==> #[trigger] spec_lookup(final(t)@, other) == spec_lookup(
                    old(t)@,
                    other,
                )),
        },
{
    match op {
        TrackerOp::Keep => (),
        TrackerOp::Register { trigger, response } => t.register(*trigger, *response),
    }
}

/// The context handed to a callback of the resolved invocation.
pub fn invocation_context(inv: &PendingInvocation) -> (r: PrefixContext)
    ensures
        msg_eq(r.msg, inv.msg),
        r.prefix@ == inv.prefix@,
        r.command == Some(inv.command),
{
    PrefixContext {
        msg: MessageInfo {
            msg_id: inv.msg.msg_id,
            author_id: inv.msg.author_id,
            content: inv.msg.content.clone(),
        },
        prefix: inv.prefix.clone(),
        command: Some(inv.command),
    }
}

} // verus!
