use prefix_dispatch::dispatch::{
    apply_tracker_op, begin_edited_message, begin_new_message, invocation_context,
    on_action_result, on_dynamic_result, on_guard_result, on_stripped_result, on_typing_result,
    ActionResult, DispatchOutcome, DispatchPhase, Directive, DynamicPrefixResult, GuardResult,
    StrippedPrefixResult, TrackerOp,
};
use prefix_dispatch::structs::{
    CommandErrorLocation, CommandTree, MessageInfo, PrefixCommand, PrefixCommandMeta,
    PrefixCommandOptions, PrefixFrameworkOptions,
};
use prefix_dispatch::tracker::EditTracker;
use prefix_dispatch::tree::find_command;

fn node(name: &str, subcommands: Vec<usize>) -> PrefixCommandMeta {
    PrefixCommandMeta {
        command: PrefixCommand {
            name: name.to_string(),
            id: 0,
            options: PrefixCommandOptions::default(),
        },
        subcommands,
    }
}

fn msg(msg_id: u64, author_id: u64, content: &str) -> MessageInfo {
    MessageInfo { msg_id, author_id, content: content.to_string() }
}

fn opts_with_prefix(p: &str) -> PrefixFrameworkOptions {
    let mut opts = PrefixFrameworkOptions::default();
    opts.prefix = Some(p.to_string());
    opts
}

#[test]
fn lookup_case_insensitive_when_configured() {
    let mut tree = CommandTree::new();
    tree.nodes.push(node("Ping", vec![]));
    tree.roots.push(0);
    let hit = find_command(&tree, "ping", true);
    assert!(hit.is_some());
    let (path, args) = hit.unwrap();
    assert_eq!(path, vec![0]);
    assert_eq!(args, "");
    assert!(find_command(&tree, "ping", false).is_none());
    assert!(find_command(&tree, "Ping", false).is_some());
}

#[test]
fn lookup_alias_matches() {
    let mut tree = CommandTree::new();
    let mut n = node("ping", vec![]);
    n.command.options.aliases = vec!["p".to_string()];
    tree.nodes.push(n);
    tree.roots.push(0);
    let (path, args) = find_command(&tree, "p  now", true).unwrap();
    assert_eq!(path, vec![0]);
    assert_eq!(args, "now");
}

#[test]
fn lookup_recurses_maximally() {
    let mut tree = CommandTree::new();
    tree.nodes.push(node("child", vec![]));
    tree.nodes.push(node("parent", vec![0]));
    tree.roots.push(1);
    let (path, args) = find_command(&tree, "parent child extra", true).unwrap();
    assert_eq!(path, vec![1, 0]);
    assert_eq!(args, "extra");
    let (path, args) = find_command(&tree, "parent other extra", true).unwrap();
    assert_eq!(path, vec![1]);
    assert_eq!(args, "other extra");
}

#[test]
fn lookup_declaration_order_wins() {
    let mut tree = CommandTree::new();
    tree.nodes.push(node("go", vec![]));
    tree.nodes.push(node("go", vec![]));
    tree.roots.push(0);
    tree.roots.push(1);
    let (path, _) = find_command(&tree, "go", true).unwrap();
    assert_eq!(path, vec![0]);
}

#[test]
fn self_message_skipped() {
    let opts = opts_with_prefix("~");
    let tree = CommandTree::new();
    let (phase, dir) = begin_new_message(&opts, &tree, msg(1, 7, "~ping"), 7);
    assert!(matches!(
        phase,
        DispatchPhase::Finished { outcome: DispatchOutcome::SkippedSelf }
    ));
    assert!(matches!(dir, Directive::Finish));
}

#[test]
fn self_message_executed_when_enabled() {
    let mut opts = opts_with_prefix("~");
    opts.execute_self_messages = true;
    let mut tree = CommandTree::new();
    tree.nodes.push(node("ping", vec![]));
    tree.roots.push(0);
    let (_, dir) = begin_new_message(&opts, &tree, msg(1, 7, "~ping"), 7);
    assert!(matches!(dir, Directive::RunAction { .. }));
}

#[test]
fn new_message_runs_action() {
    let opts = opts_with_prefix("~");
    let mut tree = CommandTree::new();
    tree.nodes.push(node("ping", vec![]));
    tree.roots.push(0);
    let (phase, dir) = begin_new_message(&opts, &tree, msg(1, 2, "~ping now"), 7);
    match dir {
        Directive::RunAction { command, prefix, args, broadcast_typing, edit_target } => {
            assert_eq!(command, 0);
            assert_eq!(prefix, "~");
            assert_eq!(args, "now");
            assert!(!broadcast_typing);
            assert_eq!(edit_target, None);
        },
        _ => panic!("expected the action directive"),
    }
    match phase {
        DispatchPhase::AwaitAction { inv } => {
            let ctx = invocation_context(&inv);
            assert_eq!(ctx.command, Some(0));
            assert_eq!(ctx.prefix, "~");
            assert_eq!(ctx.msg.msg_id, 1);
        },
        _ => panic!("expected to wait on the action"),
    }
}

#[test]
fn no_prefix_ends_silently() {
    let mut opts = opts_with_prefix("~");
    opts.mention_as_prefix = false;
    let tree = CommandTree::new();
    let (phase, dir) = begin_new_message(&opts, &tree, msg(1, 2, "hello"), 7);
    assert!(matches!(
        phase,
        DispatchPhase::Finished { outcome: DispatchOutcome::NoPrefix }
    ));
    assert!(matches!(dir, Directive::Finish));
}

#[test]
fn no_command_ends_silently() {
    let opts = opts_with_prefix("~");
    let mut tree = CommandTree::new();
    tree.nodes.push(node("ping", vec![]));
    tree.roots.push(0);
    let (phase, _) = begin_new_message(&opts, &tree, msg(1, 2, "~pong"), 7);
    assert!(matches!(
        phase,
        DispatchPhase::Finished { outcome: DispatchOutcome::NoCommand }
    ));
}

#[test]
fn guard_rejection_is_silent() {
    let opts = opts_with_prefix("~");
    let mut tree = CommandTree::new();
    let mut n = node("sudo", vec![]);
    n.command.options.check = true;
    tree.nodes.push(n);
    tree.roots.push(0);
    let (phase, dir) = begin_new_message(&opts, &tree, msg(1, 2, "~sudo rm"), 7);
    assert!(matches!(dir, Directive::RunGuard { command: 0 }));
    let (phase, dir) = on_guard_result(phase, GuardResult::Rejected);
    assert!(matches!(
        phase,
        DispatchPhase::Finished { outcome: DispatchOutcome::GuardRejected }
    ));
    assert!(matches!(dir, Directive::Finish));
}

#[test]
fn guard_failure_reports_error() {
    let opts = opts_with_prefix("~");
    let mut tree = CommandTree::new();
    let mut n = node("sudo", vec![]);
    n.command.options.check = true;
    tree.nodes.push(n);
    tree.roots.push(0);
    let (phase, _) = begin_new_message(&opts, &tree, msg(1, 2, "~sudo rm"), 7);
    let (phase, dir) = on_guard_result(phase, GuardResult::Failed);
    assert!(matches!(
        phase,
        DispatchPhase::Finished {
            outcome: DispatchOutcome::Errored { location: CommandErrorLocation::GuardCheck }
        }
    ));
    match dir {
        Directive::ReportError { location, command, edit_target, ctx } => {
            assert!(matches!(location, CommandErrorLocation::GuardCheck));
            assert_eq!(command, Some(0));
            assert_eq!(edit_target, None);
            assert_eq!(ctx.command, Some(0));
            assert_eq!(ctx.prefix, "~");
            assert_eq!(ctx.msg.msg_id, 1);
        },
        _ => panic!("expected an error report"),
    }
}

#[test]
fn guard_pass_runs_action() {
    let opts = opts_with_prefix("~");
    let mut tree = CommandTree::new();
    let mut n = node("sudo", vec![]);
    n.command.options.check = true;
    tree.nodes.push(n);
    tree.roots.push(0);
    let (phase, _) = begin_new_message(&opts, &tree, msg(1, 2, "~sudo rm -rf"), 7);
    let (_, dir) = on_guard_result(phase, GuardResult::Passed);
    match dir {
        Directive::RunAction { command, args, .. } => {
            assert_eq!(command, 0);
            assert_eq!(args, "rm -rf");
        },
        _ => panic!("expected the action directive"),
    }
}

#[test]
fn completed_tracked_action_registers_response() {
    let mut opts = opts_with_prefix("~");
    opts.edit_tracker = Some(EditTracker::new());
    let mut tree = CommandTree::new();
    let mut n = node("echo", vec![]);
    n.command.options.track_edits = true;
    tree.nodes.push(n);
    tree.roots.push(0);
    let (phase, _) = begin_new_message(&opts, &tree, msg(10, 2, "~echo hi"), 7);
    let (phase, dir, op) = on_action_result(&opts, phase, ActionResult::Completed {
        response_id: Some(100),
    });
    assert!(matches!(
        phase,
        DispatchPhase::Finished { outcome: DispatchOutcome::Completed }
    ));
    assert!(matches!(dir, Directive::Finish));
    match op {
        TrackerOp::Register { trigger, response } => {
            assert_eq!(trigger, 10);
            assert_eq!(response, 100);
        },
        TrackerOp::Keep => panic!("expected a tracker registration"),
    }
    let mut tracker = opts.edit_tracker.take().unwrap();
    apply_tracker_op(&mut tracker, &op);
    assert_eq!(tracker.lookup(10), Some(100));
}

#[test]
fn untracked_command_keeps_tracker() {
    let mut opts = opts_with_prefix("~");
    opts.edit_tracker = Some(EditTracker::new());
    let mut tree = CommandTree::new();
    tree.nodes.push(node("echo", vec![]));
    tree.roots.push(0);
    let (phase, _) = begin_new_message(&opts, &tree, msg(10, 2, "~echo hi"), 7);
    let (_, _, op) = on_action_result(&opts, phase, ActionResult::Completed {
        response_id: Some(100),
    });
    assert!(matches!(op, TrackerOp::Keep));
}

#[test]
fn tracked_edit_reuses_response() {
    let mut tracker = EditTracker::new();
    tracker.register(10, 100);
    let mut opts = opts_with_prefix("~");
    opts.edit_tracker = Some(tracker);
    let mut tree = CommandTree::new();
    let mut n = node("echo", vec![]);
    n.command.options.track_edits = true;
    tree.nodes.push(n);
    tree.roots.push(0);
    let (phase, dir) = begin_edited_message(&opts, &tree, msg(10, 2, "~echo fixed"), 7);
    match dir {
        Directive::RunAction { args, edit_target, .. } => {
            assert_eq!(args, "fixed");
            assert_eq!(edit_target, Some(100));
        },
        _ => panic!("expected the action directive targeting the old response"),
    }
    let (_, _, op) = on_action_result(&opts, phase, ActionResult::Completed {
        response_id: Some(100),
    });
    let mut tracker = opts.edit_tracker.take().unwrap();
    apply_tracker_op(&mut tracker, &op);
    assert_eq!(tracker.lookup(10), Some(100));
}

#[test]
fn untracked_edit_executes_when_allowed() {
    let mut opts = opts_with_prefix("~");
    opts.edit_tracker = Some(EditTracker::new());
    opts.execute_untracked_edits = true;
    opts.ignore_edit_tracker_cache = false;
    let mut tree = CommandTree::new();
    tree.nodes.push(node("echo", vec![]));
    tree.roots.push(0);
    let (_, dir) = begin_edited_message(&opts, &tree, msg(10, 2, "~echo hi"), 7);
    match dir {
        Directive::RunAction { edit_target, .. } => assert_eq!(edit_target, None),
        _ => panic!("expected exactly one action directive"),
    }
}

#[test]
fn untracked_edit_ignored_when_disallowed() {
    let mut opts = opts_with_prefix("~");
    opts.edit_tracker = Some(EditTracker::new());
    opts.execute_untracked_edits = false;
    let mut tree = CommandTree::new();
    tree.nodes.push(node("echo", vec![]));
    tree.roots.push(0);
    let (phase, dir) = begin_edited_message(&opts, &tree, msg(10, 2, "~echo hi"), 7);
    assert!(matches!(
        phase,
        DispatchPhase::Finished { outcome: DispatchOutcome::EditIgnored }
    ));
    assert!(matches!(dir, Directive::Finish));
}

#[test]
fn untracked_edit_ignored_on_cache_miss_policy() {
    let mut opts = opts_with_prefix("~");
    opts.edit_tracker = Some(EditTracker::new());
    opts.execute_untracked_edits = true;
    opts.ignore_edit_tracker_cache = true;
    let mut tree = CommandTree::new();
    tree.nodes.push(node("echo", vec![]));
    tree.roots.push(0);
    let (phase, _) = begin_edited_message(&opts, &tree, msg(10, 2, "~echo hi"), 7);
    assert!(matches!(
        phase,
        DispatchPhase::Finished { outcome: DispatchOutcome::EditIgnored }
    ));
}

#[test]
fn edit_without_tracker_ignored() {
    let opts = opts_with_prefix("~");
    let mut tree = CommandTree::new();
    tree.nodes.push(node("echo", vec![]));
    tree.roots.push(0);
    let (phase, _) = begin_edited_message(&opts, &tree, msg(10, 2, "~echo hi"), 7);
    assert!(matches!(
        phase,
        DispatchPhase::Finished { outcome: DispatchOutcome::EditIgnored }
    ));
}

#[test]
fn stripped_callback_drives_pipeline() {
    let mut opts = opts_with_prefix("~");
    opts.stripped_dynamic_prefix = true;
    let mut tree = CommandTree::new();
    tree.nodes.push(node("ping", vec![]));
    tree.roots.push(0);
    let (phase, dir) = begin_new_message(&opts, &tree, msg(1, 2, "anyping"), 7);
    assert!(matches!(dir, Directive::QueryStrippedPrefix));
    let (_, dir) = on_stripped_result(
        &opts,
        &tree,
        phase,
        StrippedPrefixResult::Match { prefix: "any".to_string(), rest: "ping".to_string() },
        7,
    );
    match dir {
        Directive::RunAction { command, prefix, .. } => {
            assert_eq!(command, 0);
            assert_eq!(prefix, "any");
        },
        _ => panic!("expected the action directive"),
    }
}

#[test]
fn stripped_callback_failure_reports_error() {
    let mut opts = opts_with_prefix("~");
    opts.stripped_dynamic_prefix = true;
    let tree = CommandTree::new();
    let (phase, _) = begin_new_message(&opts, &tree, msg(1, 2, "~x"), 7);
    let (phase, dir) = on_stripped_result(&opts, &tree, phase, StrippedPrefixResult::Failed, 7);
    assert!(matches!(
        phase,
        DispatchPhase::Finished {
            outcome: DispatchOutcome::Errored { location: CommandErrorLocation::PrefixResolution }
        }
    ));
    assert!(matches!(
        dir,
        Directive::ReportError { location: CommandErrorLocation::PrefixResolution, command: None, .. }
    ));
}

#[test]
fn stripped_pass_falls_back_to_static() {
    let mut opts = opts_with_prefix("~");
    opts.stripped_dynamic_prefix = true;
    let mut tree = CommandTree::new();
    tree.nodes.push(node("ping", vec![]));
    tree.roots.push(0);
    let (phase, _) = begin_new_message(&opts, &tree, msg(1, 2, "~ping"), 7);
    let (_, dir) = on_stripped_result(&opts, &tree, phase, StrippedPrefixResult::Pass, 7);
    assert!(matches!(dir, Directive::RunAction { command: 0, .. }));
}

#[test]
fn dynamic_callback_drives_pipeline() {
    let mut opts = PrefixFrameworkOptions::default();
    opts.dynamic_prefix = true;
    let mut tree = CommandTree::new();
    tree.nodes.push(node("ping", vec![]));
    tree.roots.push(0);
    let (phase, dir) = begin_new_message(&opts, &tree, msg(1, 2, "$ping it"), 7);
    assert!(matches!(dir, Directive::QueryDynamicPrefix));
    let (_, dir) = on_dynamic_result(
        &opts,
        &tree,
        phase,
        DynamicPrefixResult::Prefix { value: "$".to_string() },
        7,
    );
    match dir {
        Directive::RunAction { command, prefix, args, .. } => {
            assert_eq!(command, 0);
            assert_eq!(prefix, "$");
            assert_eq!(args, "it");
        },
        _ => panic!("expected the action directive"),
    }
}

#[test]
fn action_failure_reports_error() {
    let opts = opts_with_prefix("~");
    let mut tree = CommandTree::new();
    tree.nodes.push(node("ping", vec![]));
    tree.roots.push(0);
    let (phase, _) = begin_new_message(&opts, &tree, msg(1, 2, "~ping"), 7);
    let (phase, dir, op) = on_action_result(&opts, phase, ActionResult::Failed);
    assert!(matches!(
        phase,
        DispatchPhase::Finished {
            outcome: DispatchOutcome::Errored { location: CommandErrorLocation::CommandAction }
        }
    ));
    assert!(matches!(
        dir,
        Directive::ReportError { location: CommandErrorLocation::CommandAction, command: Some(0), .. }
    ));
    assert!(matches!(op, TrackerOp::Keep));
}

#[test]
fn broadcast_typing_flag_carried() {
    let opts = opts_with_prefix("~");
    let mut tree = CommandTree::new();
    let mut n = node("slow", vec![]);
    n.command.options.broadcast_typing = true;
    tree.nodes.push(n);
    tree.roots.push(0);
    let (_, dir) = begin_new_message(&opts, &tree, msg(1, 2, "~slow"), 7);
    match dir {
        Directive::RunAction { broadcast_typing, .. } => assert!(broadcast_typing),
        _ => panic!("expected the action directive"),
    }
}

#[test]
fn tracker_register_lookup_evict() {
    let mut t = EditTracker::new();
    assert_eq!(t.lookup(1), None);
    t.register(1, 10);
    t.register(2, 20);
    assert_eq!(t.lookup(1), Some(10));
    assert_eq!(t.lookup(2), Some(20));
    t.register(1, 11);
    assert_eq!(t.lookup(1), Some(11));
    assert_eq!(t.lookup(2), Some(20));
    t.evict(1);
    assert_eq!(t.lookup(1), None);
    assert_eq!(t.lookup(2), Some(20));
}

#[test]
fn transport_failure_reported_at_transport() {
    let opts = opts_with_prefix("~");
    let mut tree = CommandTree::new();
    tree.nodes.push(node("ping", vec![]));
    tree.roots.push(0);
    let (phase, _) = begin_new_message(&opts, &tree, msg(1, 2, "~ping"), 7);
    let (phase, dir, op) = on_action_result(&opts, phase, ActionResult::TransportFailed);
    assert!(matches!(
        phase,
        DispatchPhase::Finished {
            outcome: DispatchOutcome::Errored { location: CommandErrorLocation::Transport }
        }
    ));
    assert!(matches!(
        dir,
        Directive::ReportError { location: CommandErrorLocation::Transport, command: Some(0), .. }
    ));
    assert!(matches!(op, TrackerOp::Keep));
}

#[test]
fn empty_rest_matches_no_command() {
    let mut tree = CommandTree::new();
    tree.nodes.push(node("ping", vec![]));
    tree.roots.push(0);
    assert!(find_command(&tree, "", true).is_none());
    assert!(find_command(&tree, "   ", true).is_none());
}


#[test]
fn typing_failure_reported_without_gating_action() {
    let opts = opts_with_prefix("~");
    let mut tree = CommandTree::new();
    let mut n = node("slow", vec![]);
    n.command.options.broadcast_typing = true;
    tree.nodes.push(n);
    tree.roots.push(0);
    let (phase, _) = begin_new_message(&opts, &tree, msg(1, 2, "~slow go"), 7);
    let report = on_typing_result(&phase, false);
    match report {
        Some(Directive::ReportError { location, command, edit_target, ctx }) => {
            assert!(matches!(location, CommandErrorLocation::Transport));
            assert_eq!(command, Some(0));
            assert_eq!(edit_target, None);
            assert_eq!(ctx.command, Some(0));
        },
        _ => panic!("expected an error report at the transport location"),
    }
    assert!(matches!(phase, DispatchPhase::AwaitAction { .. }));
    let (phase, _, _) = on_action_result(&opts, phase, ActionResult::Completed {
        response_id: Some(9),
    });
    assert!(matches!(
        phase,
        DispatchPhase::Finished { outcome: DispatchOutcome::Completed }
    ));
}

#[test]
fn typing_success_reports_nothing() {
    let opts = opts_with_prefix("~");
    let mut tree = CommandTree::new();
    let mut n = node("slow", vec![]);
    n.command.options.broadcast_typing = true;
    tree.nodes.push(n);
    tree.roots.push(0);
    let (phase, _) = begin_new_message(&opts, &tree, msg(1, 2, "~slow"), 7);
    assert!(on_typing_result(&phase, true).is_none());
}
