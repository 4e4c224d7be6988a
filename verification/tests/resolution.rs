use prefix_dispatch::pattern::PatternPrefix;
use prefix_dispatch::resolver::{resolve_prefix, PrefixResolution};
use prefix_dispatch::structs::{
    CommandTree, Prefix, PrefixCommand, PrefixCommandMeta, PrefixCommandOptions,
    PrefixFrameworkOptions,
};
use prefix_dispatch::text::{split_word, strip_literal, str_matches};
use prefix_dispatch::tree::validate_tree;

fn opts_with_prefix(p: &str) -> PrefixFrameworkOptions {
    let mut opts = PrefixFrameworkOptions::default();
    opts.prefix = Some(p.to_string());
    opts
}

fn expect_match(r: PrefixResolution) -> (String, String) {
    match r {
        PrefixResolution::Matched { prefix, rest } => (prefix, rest),
        PrefixResolution::NoMatch => panic!("expected a prefix match"),
    }
}

#[test]
fn literal_prefix_strips_exactly() {
    let opts = opts_with_prefix("~");
    let r = resolve_prefix(&opts, "~ping arg one", 1, None, &None);
    let (prefix, rest) = expect_match(r);
    assert_eq!(prefix, "~");
    assert_eq!(rest, "ping arg one");
    assert_eq!(format!("{}{}", prefix, rest), "~ping arg one");
}

#[test]
fn literal_prefix_requires_start() {
    let mut opts = opts_with_prefix("~");
    opts.mention_as_prefix = false;
    let r = resolve_prefix(&opts, "say ~ping", 1, None, &None);
    assert!(matches!(r, PrefixResolution::NoMatch));
}

#[test]
fn additional_literal_prefixes_in_order() {
    let mut opts = PrefixFrameworkOptions::default();
    opts.additional_prefixes = vec![
        Prefix::Literal("!!".to_string()),
        Prefix::Literal("!".to_string()),
    ];
    let (prefix, rest) = expect_match(resolve_prefix(&opts, "!!x", 1, None, &None));
    assert_eq!(prefix, "!!");
    assert_eq!(rest, "x");
    let (prefix, rest) = expect_match(resolve_prefix(&opts, "!x", 1, None, &None));
    assert_eq!(prefix, "!");
    assert_eq!(rest, "x");
}

#[test]
fn pattern_prefix_matches_at_start() {
    let mut opts = PrefixFrameworkOptions::default();
    opts.mention_as_prefix = false;
    let pat = PatternPrefix::compile("!+").expect("valid pattern");
    opts.additional_prefixes = vec![Prefix::Regex(pat)];
    let (prefix, rest) = expect_match(resolve_prefix(&opts, "!!!cmd", 1, None, &None));
    assert_eq!(prefix, "!!!");
    assert_eq!(rest, "cmd");
}

#[test]
fn pattern_prefix_rejects_later_match() {
    let mut opts = PrefixFrameworkOptions::default();
    opts.mention_as_prefix = false;
    let pat = PatternPrefix::compile("abc").expect("valid pattern");
    opts.additional_prefixes = vec![Prefix::Regex(pat)];
    let r = resolve_prefix(&opts, "zz abc rest", 1, None, &None);
    assert!(matches!(r, PrefixResolution::NoMatch));
    let (prefix, rest) = expect_match(resolve_prefix(&opts, "abc rest", 1, None, &None));
    assert_eq!(prefix, "abc");
    assert_eq!(rest, " rest");
}

#[test]
fn invalid_pattern_fails_to_compile() {
    assert!(PatternPrefix::compile("(").is_none());
}

#[test]
fn stripped_dynamic_beats_static() {
    let mut opts = opts_with_prefix("~");
    opts.stripped_dynamic_prefix = true;
    let stripped = Some(("dyn".to_string(), "tail".to_string()));
    let (prefix, rest) = expect_match(resolve_prefix(&opts, "~both match", 1, stripped, &None));
    assert_eq!(prefix, "dyn");
    assert_eq!(rest, "tail");
}

#[test]
fn dynamic_prefix_wins_when_it_matches() {
    let mut opts = opts_with_prefix("$");
    opts.dynamic_prefix = true;
    opts.mention_as_prefix = false;
    let dynamic = Some("$!".to_string());
    let (prefix, rest) = expect_match(resolve_prefix(&opts, "$!go", 1, None, &dynamic));
    assert_eq!(prefix, "$!");
    assert_eq!(rest, "go");
}

#[test]
fn dynamic_prefix_miss_falls_through_to_static() {
    let mut opts = opts_with_prefix("~");
    opts.dynamic_prefix = true;
    opts.mention_as_prefix = false;
    let dynamic = Some("$".to_string());
    let (prefix, rest) = expect_match(resolve_prefix(&opts, "~go", 1, None, &dynamic));
    assert_eq!(prefix, "~");
    assert_eq!(rest, "go");
    let r = resolve_prefix(&opts, "go", 1, None, &dynamic);
    assert!(matches!(r, PrefixResolution::NoMatch));
}

#[test]
fn dynamic_prefix_none_falls_back_to_static() {
    let mut opts = opts_with_prefix("~");
    opts.dynamic_prefix = true;
    let (prefix, rest) = expect_match(resolve_prefix(&opts, "~go", 1, None, &None));
    assert_eq!(prefix, "~");
    assert_eq!(rest, "go");
}

#[test]
fn mention_as_prefix_plain() {
    let opts = PrefixFrameworkOptions::default();
    let (prefix, rest) = expect_match(resolve_prefix(&opts, "<@42> hello", 42, None, &None));
    assert_eq!(prefix, "<@42> ");
    assert_eq!(rest, "hello");
}

#[test]
fn mention_as_prefix_nickname_form() {
    let opts = PrefixFrameworkOptions::default();
    let (prefix, rest) = expect_match(resolve_prefix(&opts, "<@!42>hi", 42, None, &None));
    assert_eq!(prefix, "<@!42>");
    assert_eq!(rest, "hi");
}

#[test]
fn mention_of_other_account_ignored() {
    let opts = PrefixFrameworkOptions::default();
    let r = resolve_prefix(&opts, "<@43> hello", 42, None, &None);
    assert!(matches!(r, PrefixResolution::NoMatch));
}

#[test]
fn mention_disabled_ignored() {
    let mut opts = PrefixFrameworkOptions::default();
    opts.mention_as_prefix = false;
    let r = resolve_prefix(&opts, "<@42> hello", 42, None, &None);
    assert!(matches!(r, PrefixResolution::NoMatch));
}

#[test]
fn split_word_trims_and_splits() {
    let (word, rest) = split_word("  hello   world  ");
    assert_eq!(word, "hello");
    assert_eq!(rest, "world  ");
    let (word, rest) = split_word("single");
    assert_eq!(word, "single");
    assert_eq!(rest, "");
    let (word, rest) = split_word("   ");
    assert_eq!(word, "");
    assert_eq!(rest, "");
}

#[test]
fn strip_literal_exact() {
    assert_eq!(strip_literal("~ping", "~"), Some("ping".to_string()));
    assert_eq!(strip_literal("ping", "~"), None);
    assert_eq!(strip_literal("~", "~"), Some("".to_string()));
}

#[test]
fn name_comparison_case_modes() {
    assert!(str_matches("ping", "Ping", true));
    assert!(!str_matches("ping", "Ping", false));
    assert!(str_matches("Ping", "Ping", false));
    assert!(!str_matches("pin", "Ping", true));
}

#[test]
fn validate_tree_accepts_distinct_siblings() {
    let mut tree = CommandTree::new();
    tree.nodes.push(simple_node("ping"));
    tree.nodes.push(simple_node("pong"));
    tree.roots.push(0);
    tree.roots.push(1);
    assert!(validate_tree(&tree, true));
}

#[test]
fn validate_tree_rejects_equal_names_under_case_insensitivity() {
    let mut tree = CommandTree::new();
    tree.nodes.push(simple_node("Ping"));
    tree.nodes.push(simple_node("ping"));
    tree.roots.push(0);
    tree.roots.push(1);
    assert!(!validate_tree(&tree, true));
    assert!(validate_tree(&tree, false));
}

#[test]
fn validate_tree_rejects_alias_collision() {
    let mut tree = CommandTree::new();
    let mut a = simple_node("ping");
    a.command.options.aliases = vec!["p".to_string()];
    tree.nodes.push(a);
    tree.nodes.push(simple_node("P"));
    tree.roots.push(0);
    tree.roots.push(1);
    assert!(!validate_tree(&tree, true));
}

#[test]
fn validate_tree_rejects_bad_child_index() {
    let mut tree = CommandTree::new();
    let mut a = simple_node("ping");
    a.subcommands = vec![0];
    tree.nodes.push(a);
    tree.roots.push(0);
    assert!(!validate_tree(&tree, true));
}

fn simple_node(name: &str) -> PrefixCommandMeta {
    PrefixCommandMeta {
        command: PrefixCommand {
            name: name.to_string(),
            id: 0,
            options: PrefixCommandOptions::default(),
        },
        subcommands: vec![],
    }
}

#[test]
fn empty_message_matches_nothing() {
    let mut opts = opts_with_prefix("~");
    opts.mention_as_prefix = false;
    assert!(matches!(
        resolve_prefix(&opts, "", 1, None, &None),
        PrefixResolution::NoMatch
    ));
}

#[test]
fn empty_prefix_matches_everything() {
    let opts = opts_with_prefix("");
    let (prefix, rest) = expect_match(resolve_prefix(&opts, "ping", 1, None, &None));
    assert_eq!(prefix, "");
    assert_eq!(rest, "ping");
}

#[test]
fn mention_with_many_digits() {
    let opts = PrefixFrameworkOptions::default();
    let (prefix, rest) =
        expect_match(resolve_prefix(&opts, "<@1234567890> do it", 1234567890, None, &None));
    assert_eq!(prefix, "<@1234567890> ");
    assert_eq!(rest, "do it");
}
