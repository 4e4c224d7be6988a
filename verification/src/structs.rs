//! Prefix-command definition structs: commands, their options, the command
//! tree, the framework configuration, and the contexts handed to callbacks.
//!
//! Callbacks (actions, guards, error hooks, dynamic-prefix strategies) run
//! outside this core; the configuration records whether one is installed,
//! and the dispatcher receives the value a callback produced as an event.
use vstd::prelude::*;

use crate::pattern::PatternPrefix;
use crate::tracker::EditTracker;

verus! {

/// Optional settings for a [`PrefixCommand`].
pub struct PrefixCommandOptions {
    /// Multiline description with detailed usage instructions, shown by a
    /// command-specific help command.
    pub multiline_help: Option<String>,
    /// Alternative triggers for the command.
    pub aliases: Vec<String>,
    /// Whether a per-command error hook is installed; the framework-wide
    /// hook is used otherwise.
    pub on_error: bool,
    /// Whether a guard callback is installed. When it yields false, the
    /// command is not executed.
    pub check: bool,
    /// Whether edits to the triggering message re-run this command. Only
    /// has an effect if an edit tracker is configured.
    pub track_edits: bool,
    /// Whether to broadcast a typing indicator while executing this command.
    pub broadcast_typing: bool,
}

impl Default for PrefixCommandOptions {
    /// No help, no aliases, no hooks, tracking and typing off.
    fn default() -> (r: PrefixCommandOptions)
        ensures
            r.multiline_help is None,
            r.aliases@.len() == 0,
            !r.on_error,
            !r.check,
            !r.track_edits,
            !r.broadcast_typing,
    {
        PrefixCommandOptions {
            multiline_help: None,
            aliases: Vec::new(),
            on_error: false,
            check: false,
            track_edits: false,
            broadcast_typing: false,
        }
    }
}

/// Definition of a single command, excluding metadata which doesn't affect
/// the command itself such as category.
pub struct PrefixCommand {
    /// Main name of the command. Aliases can be set in
    /// [`PrefixCommandOptions::aliases`].
    pub name: String,
    /// The command ID, shared across all command types that belong to the
    /// same implementation.
    pub id: u64,
    /// Optional data to change this command's behavior.
    pub options: PrefixCommandOptions,
}

/// Includes a command, plus its possible subcommands. Nodes live in the
/// arena of a [`CommandTree`]; `subcommands` holds arena indices.
pub struct PrefixCommandMeta {
    /// Core command data.
    pub command: PrefixCommand,
    /// Arena indices of the subcommands, in declaration order.
    pub subcommands: Vec<usize>,
}

/// Ordered forest of commands: an arena of nodes and the indices of the
/// top-level commands, in declaration order.
pub struct CommandTree {
    /// All nodes. A node's subcommands carry smaller indices than the node
    /// itself, so the forest is built leaves first.
    pub nodes: Vec<PrefixCommandMeta>,
    /// Indices of the top-level commands, in declaration order.
    pub roots: Vec<usize>,
}

impl CommandTree {
    /// Every subcommand index points below its parent, and every root index
    /// into the arena.
    pub open spec fn wf(&self) -> bool {
        (forall|i: int, j: int|
            0 <= i < self.nodes@.len() && 0 <= j < self.nodes@[i].subcommands@.len()
                ==> (#[trigger] self.nodes@[i].subcommands@[j]) < i)
        && (forall|k: int|
            0 <= k < self.roots@.len() ==> (#[trigger] self.roots@[k]) < self.nodes@.len())
    }

    /// An empty forest.
    pub fn new() -> (r: CommandTree)
        ensures
            r.wf(),
            r.nodes@.len() == 0,
            r.roots@.len() == 0,
    {
        CommandTree { nodes: Vec::new(), roots: Vec::new() }
    }
}

/// Possible ways to define a command prefix.
pub enum Prefix {
    /// A case-sensitive string literal prefix.
    Literal(String),
    /// Regular expression which matches the prefix.
    Regex(PatternPrefix),
}

/// Prefix-specific framework configuration.
///
/// The dynamic-prefix fields record whether the corresponding callback is
/// installed; the dispatcher asks for the callback's value with a directive
/// and receives it as an event.
pub struct PrefixFrameworkOptions {
    /// The main bot prefix. Can be `None` if the bot supports only dynamic
    /// prefixes.
    pub prefix: Option<String>,
    /// List of additional bot prefixes, tried in declaration order.
    pub additional_prefixes: Vec<Prefix>,
    /// Whether a callback returning a prefix to check is installed. A prefix
    /// it yields is checked before the static and additional prefixes, which
    /// are still tried when the message does not start with it.
    pub dynamic_prefix: bool,
    /// Whether a callback stripping the prefix off a message itself is
    /// installed. It takes priority over every other strategy.
    pub stripped_dynamic_prefix: bool,
    /// Treat a bot mention (a ping) like a prefix.
    pub mention_as_prefix: bool,
    /// If `Some`, the framework reacts to message edits by editing the
    /// corresponding bot response with the new result.
    pub edit_tracker: Option<EditTracker>,
    /// Execute a command when an edit first makes a message a valid
    /// invocation, although no tracker entry exists for it.
    pub execute_untracked_edits: bool,
    /// Ignore message edits whose trigger has no tracker entry.
    pub ignore_edit_tracker_cache: bool,
    /// Whether commands in messages emitted by the bot itself should be
    /// executed as well.
    pub execute_self_messages: bool,
    /// Whether command names should be compared case-insensitively.
    pub case_insensitive_commands: bool,
}

impl Default for PrefixFrameworkOptions {
    /// No prefixes and no callbacks; mention as prefix on, untracked edits
    /// executed, cache misses honored, self messages skipped, names compared
    /// case-insensitively.
    fn default() -> (r: PrefixFrameworkOptions)
        ensures
            r.prefix is None,
            r.additional_prefixes@.len() == 0,
            !r.dynamic_prefix,
            !r.stripped_dynamic_prefix,
            r.mention_as_prefix,
            r.edit_tracker is None,
            r.execute_untracked_edits,
            !r.ignore_edit_tracker_cache,
            !r.execute_self_messages,
            r.case_insensitive_commands,
    {
        PrefixFrameworkOptions {
            prefix: None,
            additional_prefixes: Vec::new(),
            dynamic_prefix: false,
            stripped_dynamic_prefix: false,
            mention_as_prefix: true,
            edit_tracker: None,
            execute_untracked_edits: true,
            ignore_edit_tracker_cache: false,
            execute_self_messages: false,
            case_insensitive_commands: true,
        }
    }
}

/// The triggering message, as the dispatcher reads it: its identifier, its
/// author, and its text.
#[derive(Clone)]
pub struct MessageInfo {
    /// Platform identifier of the message.
    pub msg_id: u64,
    /// Platform identifier of the message's author.
    pub author_id: u64,
    /// The message text.
    pub content: String,
}

/// Two messages carry the same data.
pub open spec fn msg_eq(a: MessageInfo, b: MessageInfo) -> bool {
    a.msg_id == b.msg_id && a.author_id == b.author_id && a.content@ == b.content@
}

/// Prefix-specific context passed to command invocations: the trigger
/// message, the prefix used, and the matched command, if any, as an arena
/// index into the command tree.
#[derive(Clone)]
pub struct PrefixContext {
    /// The invoking user message.
    pub msg: MessageInfo,
    /// Prefix used by the user to invoke this command.
    pub prefix: String,
    /// Arena index of the current command; `None` where there is no command.
    pub command: Option<usize>,
}

/// What part of a command's processing an error arose in.
#[derive(Clone, Copy, PartialEq, Eq, Structural, Debug)]
pub enum CommandErrorLocation {
    /// A dynamic-prefix callback failed.
    PrefixResolution,
    /// The guard callback failed (distinct from a clean rejection).
    GuardCheck,
    /// The command's own action failed.
    CommandAction,
    /// A send, edit or typing call of the platform failed.
    Transport,
}

/// Context passed alongside the error value to error handlers.
#[derive(Clone)]
pub struct PrefixCommandErrorContext {
    /// What part of the command triggered the error.
    pub location: CommandErrorLocation,
    /// Arena index of the command that was being processed when the error
    /// occurred, if one was matched.
    pub command: Option<usize>,
    /// Further context.
    pub ctx: PrefixContext,
}

} // verus!
