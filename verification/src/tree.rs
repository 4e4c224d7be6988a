//! Command tree lookup: tokenize the text left after the prefix against a
//! forest of commands, recursing into subcommands as deep as the words
//! match, and hand back the matched node with the remaining argument text.
use vstd::prelude::*;

use crate::structs::{CommandTree, PrefixCommandMeta};
use crate::text::{eq_char_ci, name_matches, split_word, split_word_spec, str_matches};

verus! {

/// The candidate word equals the node's name or one of its aliases, under
/// the configured case sensitivity.
pub open spec fn node_matches(n: PrefixCommandMeta, word: Seq<char>, ci: bool) -> bool {
    name_matches(word, n.command.name@, ci) || exists|j: int|
        0 <= j < n.command.options.aliases@.len() && name_matches(
            word,
            #[trigger] n.command.options.aliases@[j]@,
            ci,
        )
}

/// Every index of `idxs` lies below `bound`.
pub open spec fn list_wf(idxs: Seq<usize>, bound: int) -> bool {
    forall|k: int| 0 <= k < idxs.len() ==> (#[trigger] idxs[k]) < bound
}

/// Lookup among the sibling nodes `idxs`, tried in declaration order: the
/// first node whose name or alias equals the leading word of `text` wins;
/// the search then recurses into its subcommands with the text after the
/// word, and the node itself is the match when no subcommand matches. The
/// result is the arena index path to the matched node and the remaining
/// argument text.
pub open spec fn spec_find_in_list(
    nodes: Seq<PrefixCommandMeta>,
    idxs: Seq<usize>,
    bound: int,
    text: Seq<char>,
    ci: bool,
) -> Option<(Seq<usize>, Seq<char>)>
    decreases bound, idxs.len(),
{
    if idxs.len() == 0 || bound < 0 {
        None
    } else {
        let i = idxs[0];
        let word = split_word_spec(text).0;
        let after = split_word_spec(text).1;
        if (i as int) < bound && node_matches(nodes[i as int], word, ci) {
            match spec_find_in_list(nodes, nodes[i as int].subcommands@, i as int, after, ci) {
                Some(r) => Some((seq![i] + r.0, r.1)),
                None => Some((seq![i], after)),
            }
        } else {
            spec_find_in_list(nodes, idxs.drop_first(), bound, text, ci)
        }
    }
}

/// Lookup over the whole forest, starting from the top-level commands.
pub open spec fn spec_find(tree: CommandTree, text: Seq<char>, ci: bool) -> Option<
    (Seq<usize>, Seq<char>),
> {
    spec_find_in_list(tree.nodes@, tree.roots@, tree.nodes@.len() as int, text, ci)
}

/// A found path is nonempty and each of its elements indexes the arena.
pub proof fn lemma_find_path_valid(
    nodes: Seq<PrefixCommandMeta>,
    idxs: Seq<usize>,
    bound: int,
    text: Seq<char>,
    ci: bool,
)
    requires
        bound <= nodes.len(),
        list_wf(idxs, bound),
        forall|i: int, j: int|
            0 <= i < nodes.len() && 0 <= j < nodes[i].subcommands@.len()
                ==> (#[trigger] nodes[i].subcommands@[j]) < i,
    ensures
        match spec_find_in_list(nodes, idxs, bound, text, ci) {
            Some(r) => r.0.len() > 0 && (forall|k: int|
                0 <= k < r.0.len() ==> (#[trigger] r.0[k]) < nodes.len()),
            None => true,
        },
    decreases bound, idxs.len(),
{
    if idxs.len() == 0 || bound < 0 {
    } else {
        let i = idxs[0];
        let word = split_word_spec(text).0;
        let after = split_word_spec(text).1;
        if (i as int) < bound && node_matches(nodes[i as int], word, ci) {
            lemma_find_path_valid(nodes, nodes[i as int].subcommands@, i as int, after, ci);
        } else {
            lemma_find_path_valid(nodes, idxs.drop_first(), bound, text, ci);
        }
    }
}

fn node_matches_exec(n: &PrefixCommandMeta, word: &String, ci: bool) -> (r: bool)
    ensures
        r == node_matches(*n, word@, ci),
{
    if str_matches(word.as_str(), n.command.name.as_str(), ci) {
        return true;
    }
    let m = n.command.options.aliases.len();
    let mut j: usize = 0;
    while j < m
        invariant
            m == n.command.options.aliases@.len(),
            0 <= j <= m,
            forall|k: int|
                0 <= k < j ==> !name_matches(word@, #[trigger] n.command.options.aliases@[k]@, ci),
        decreases m - j,
    {
        if str_matches(word.as_str(), n.command.options.aliases[j].as_str(), ci) {
            return true;
        }
        j = j + 1;
    }
    false
}

fn find_in_list(
    tree: &CommandTree,
    idxs: &Vec<usize>,
    bound: usize,
    text: &str,
    ci: bool,
) -> (r: Option<(Vec<usize>, String)>)
    requires
        tree.wf(),
        bound <= tree.nodes@.len(),
        list_wf(idxs@, bound as int),
    ensures
        match r {
            Some(p) => spec_find_in_list(tree.nodes@, idxs@, bound as int, text@, ci) == Some(
                (p.0@, p.1@),
            ),
            None => spec_find_in_list(tree.nodes@, idxs@, bound as int, text@, ci) is None,
        },
    decreases bound,
{
    let (word, after) = split_word(text);
    let n = idxs.len();
    let mut k: usize = 0;
    proof {
        assert(idxs@.skip(0) =~= idxs@);
    }
    while k < n
        invariant
            tree.wf(),
            bound <= tree.nodes@.len(),
            list_wf(idxs@, bound as int),
            n == idxs@.len(),
            0 <= k <= n,
            word@ == split_word_spec(text@).0,
            after@ == split_word_spec(text@).1,
            spec_find_in_list(tree.nodes@, idxs@.skip(k as int), bound as int, text@, ci)
                == spec_find_in_list(tree.nodes@, idxs@, bound as int, text@, ci),
        decreases n - k,
    {
        let i = idxs[k];
        proof {
            assert(idxs@.skip(k as int)[0] == idxs@[k as int]);
        }
        if node_matches_exec(&tree.nodes[i], &word, ci) {
            let sub = find_in_list(tree, &tree.nodes[i].subcommands, i, after.as_str(), ci);
            match sub {
                Some(p) => {
                    let (mut path, args) = p;
                    path.insert(0, i);
                    proof {
                        assert(path@ =~= seq![i] + path@.drop_first());
                    }
                    return Some((path, args));
                },
                None => {
                    let mut path: Vec<usize> = Vec::new();
                    path.push(i);
                    proof {
                        assert(path@ =~= seq![i]);
                    }
                    return Some((path, after));
                },
            }
        }
        k = k + 1;
        proof {
            assert(idxs@.skip(k - 1 as int).drop_first() =~= idxs@.skip(k as int));
        }
    }
    proof {
        assert(idxs@.skip(n as int) =~= Seq::<usize>::empty());
    }
    None
}

/// Resolve the text left after the prefix against the command forest:
/// the deepest matching command, as the arena index path to it, and the
/// remaining argument text.
pub fn find_command(tree: &CommandTree, text: &str, ci: bool) -> (r: Option<(Vec<usize>, String)>)
    requires
        tree.wf(),
    ensures
        match r {
            Some(p) => spec_find(*tree, text@, ci) == Some((p.0@, p.1@)) && p.0@.len() > 0
                && (forall|k: int| 0 <= k < p.0@.len() ==> (#[trigger] p.0@[k]) < tree.nodes@.len()),
            None => spec_find(*tree, text@, ci) is None,
        },
{
    proof {
        lemma_find_path_valid(
            tree.nodes@,
            tree.roots@,
            tree.nodes@.len() as int,
            text@,
            ci,
        );
    }
    find_in_list(tree, &tree.roots, tree.nodes.len(), text, ci)
}

/// The trigger words of a node: its name, then its aliases.
pub open spec fn node_words(n: PrefixCommandMeta) -> Seq<Seq<char>> {
    seq![n.command.name@] + n.command.options.aliases@.map(|k: int, a: String| a@)
}

/// Some trigger word of `a` equals some trigger word of `b` under the
/// configured case sensitivity.
pub open spec fn nodes_collide(a: PrefixCommandMeta, b: PrefixCommandMeta, ci: bool) -> bool {
    exists|i: int, j: int|
        0 <= i < node_words(a).len() && 0 <= j < node_words(b).len() && name_matches(
            #[trigger] node_words(a)[i],
            #[trigger] node_words(b)[j],
            ci,
        )
}

/// No two distinct nodes of the sibling list `idxs` share a trigger word.
pub open spec fn siblings_distinct(
    nodes: Seq<PrefixCommandMeta>,
    idxs: Seq<usize>,
    ci: bool,
) -> bool {
    forall|p: int, q: int|
        0 <= p < q < idxs.len() ==> !nodes_collide(
            nodes[#[trigger] idxs[p] as int],
            nodes[#[trigger] idxs[q] as int],
            ci,
        )
}

/// The tree invariant on names: in every sibling list — the top-level
/// commands and each node's subcommands — no two nodes compare equal by name
/// or alias under the configured case sensitivity, so lookup is unambiguous.
pub open spec fn tree_distinct(tree: CommandTree, ci: bool) -> bool {
    &&& siblings_distinct(tree.nodes@, tree.roots@, ci)
    &&& forall|i: int|
        0 <= i < tree.nodes@.len() ==> siblings_distinct(
            tree.nodes@,
            #[trigger] tree.nodes@[i].subcommands@,
            ci,
        )
}

/// Some trigger word of `b` equals `w`.
fn word_matches_node(w: &String, b: &PrefixCommandMeta, ci: bool) -> (r: bool)
    ensures
        r == exists|j: int|
            0 <= j < node_words(*b).len() && name_matches(w@, #[trigger] node_words(*b)[j], ci),
{
    if str_matches(w.as_str(), b.command.name.as_str(), ci) {
        proof {
            assert(node_words(*b)[0] == b.command.name@);
        }
        return true;
    }
    let m = b.command.options.aliases.len();
    let mut k: usize = 0;
    while k < m
        invariant
            m == b.command.options.aliases@.len(),
            0 <= k <= m,
            !name_matches(w@, b.command.name@, ci),
            forall|j: int|
                0 <= j < k ==> !name_matches(w@, #[trigger] b.command.options.aliases@[j]@, ci),
        decreases m - k,
    {
        if str_matches(w.as_str(), b.command.options.aliases[k].as_str(), ci) {
            proof {
                assert(node_words(*b)[k + 1] == b.command.options.aliases@[k as int]@);
            }
            return true;
        }
        k = k + 1;
    }
    proof {
        assert forall|j: int|
            0 <= j < node_words(*b).len() implies !name_matches(
            w@,
            #[trigger] node_words(*b)[j],
            ci,
        ) by {
            if j == 0 {
                assert(node_words(*b)[0] == b.command.name@);
            } else {
                assert(node_words(*b)[j] == b.command.options.aliases@[j - 1]@);
            }
        }
    }
    false
}

/// Some trigger word of `a` equals some trigger word of `b`.
fn nodes_collide_exec(a: &PrefixCommandMeta, b: &PrefixCommandMeta, ci: bool) -> (r: bool)
    ensures
        r == nodes_collide(*a, *b, ci),
{
    if word_matches_node(&a.command.name, b, ci) {
        proof {
            assert(node_words(*a)[0] == a.command.name@);
        }
        return true;
    }
    let m = a.command.options.aliases.len();
    let mut k: usize = 0;
    while k < m
        invariant
            m == a.command.options.aliases@.len(),
            0 <= k <= m,
            forall|j: int|
                0 <= j < node_words(*b).len() ==> !name_matches(
                    a.command.name@,
                    #[trigger] node_words(*b)[j],
                    ci,
                ),
            forall|i: int, j: int|
                0 <= i < k && 0 <= j < node_words(*b).len() ==> !name_matches(
                    #[trigger] a.command.options.aliases@[i]@,
                    #[trigger] node_words(*b)[j],
                    ci,
                ),
        decreases m - k,
    {
        if word_matches_node(&a.command.options.aliases[k], b, ci) {
            proof {
                assert(node_words(*a)[k + 1] == a.command.options.aliases@[k as int]@);
            }
            return true;
        }
        k = k + 1;
    }
    proof {
        assert forall|i: int, j: int|
            0 <= i < node_words(*a).len() && 0 <= j < node_words(*b).len() implies !name_matches(
            #[trigger] node_words(*a)[i],
            #[trigger] node_words(*b)[j],
            ci,
        ) by {
            if i == 0 {
                assert(node_words(*a)[0] == a.command.name@);
            } else {
                assert(node_words(*a)[i] == a.command.options.aliases@[i - 1]@);
            }
        }
    }
    false
}

/// No two distinct nodes of the sibling list share a trigger word.
fn check_siblings(nodes: &Vec<PrefixCommandMeta>, idxs: &Vec<usize>, ci: bool) -> (r: bool)
    requires
        list_wf(idxs@, nodes@.len() as int),
    ensures
        r == siblings_distinct(nodes@, idxs@, ci),
{
    let n = idxs.len();
    let mut p: usize = 0;
    while p < n
        invariant
            n == idxs@.len(),
            list_wf(idxs@, nodes@.len() as int),
            0 <= p <= n,
            forall|x: int, y: int|
                0 <= x < y < n && x < p ==> !nodes_collide(
                    nodes@[#[trigger] idxs@[x] as int],
                    nodes@[#[trigger] idxs@[y] as int],
                    ci,
                ),
        decreases n - p,
    {
        let mut q: usize = p + 1;
        while q < n
            invariant
                n == idxs@.len(),
                list_wf(idxs@, nodes@.len() as int),
                0 <= p < q <= n,
                forall|y: int|
                    p < y < q ==> !nodes_collide(
                        nodes@[idxs@[p as int] as int],
                        nodes@[#[trigger] idxs@[y] as int],
                        ci,
                    ),
            decreases n - q,
        {
            if nodes_collide_exec(&nodes[idxs[p]], &nodes[idxs[q]], ci) {
                return false;
            }
            q = q + 1;
        }
        p = p + 1;
    }
    true
}

/// Check the whole tree invariant at once: subcommand indices below their
/// parent, root indices inside the arena, and every sibling list free of
/// equal names and aliases under the configured case sensitivity.
pub fn validate_tree(tree: &CommandTree, ci: bool) -> (r: bool)
    ensures
        r == (tree.wf() && tree_distinct(*tree, ci)),
{
    let n = tree.nodes.len();
    let mut i: usize = 0;
    while i < n
        invariant
            n == tree.nodes@.len(),
            0 <= i <= n,
            forall|x: int, j: int|
                0 <= x < i && 0 <= j < tree.nodes@[x].subcommands@.len()
                    ==> (#[trigger] tree.nodes@[x].subcommands@[j]) < x,
        decreases n - i,
    {
        let m = tree.nodes[i].subcommands.len();
        let mut j: usize = 0;
        while j < m
            invariant
                n == tree.nodes@.len(),
                0 <= i < n,
                m == tree.nodes@[i as int].subcommands@.len(),
                0 <= j <= m,
                forall|y: int|
                    0 <= y < j ==> (#[trigger] tree.nodes@[i as int].subcommands@[y]) < i,
            decreases m - j,
        {
            if tree.nodes[i].subcommands[j] >= i {
                return false;
            }
            j = j + 1;
        }
        i = i + 1;
    }
    let rn = tree.roots.len();
    let mut k: usize = 0;
    while k < rn
        invariant
            rn == tree.roots@.len(),
            n == tree.nodes@.len(),
            0 <= k <= rn,
            forall|y: int| 0 <= y < k ==> (#[trigger] tree.roots@[y]) < n,
        decreases rn - k,
    {
        if tree.roots[k] >= n {
            return false;
        }
        k = k + 1;
    }
    proof {
        assert(tree.wf());
    }
    if !check_siblings(&tree.nodes, &tree.roots, ci) {
        return false;
    }
    let mut i: usize = 0;
    while i < n
        invariant
            n == tree.nodes@.len(),
            tree.wf(),
            0 <= i <= n,
            siblings_distinct(tree.nodes@, tree.roots@, ci),
            forall|x: int|
                0 <= x < i ==> siblings_distinct(
                    tree.nodes@,
                    #[trigger] tree.nodes@[x].subcommands@,
                    ci,
                ),
        decreases n - i,
    {
        if !check_siblings(&tree.nodes, &tree.nodes[i].subcommands, ci) {
            return false;
        }
        i = i + 1;
    }
    true
}


/// A word that matches a node equals one of the node's trigger words.
pub(crate) proof fn lemma_node_matches_words(n: PrefixCommandMeta, word: Seq<char>, ci: bool)
    requires
        node_matches(n, word, ci),
    ensures
        exists|k: int|
            0 <= k < node_words(n).len() && name_matches(word, #[trigger] node_words(n)[k], ci),
{
    if name_matches(word, n.command.name@, ci) {
        assert(node_words(n)[0] == n.command.name@);
    } else {
        let j = choose|j: int|
            0 <= j < n.command.options.aliases@.len() && name_matches(
                word,
                #[trigger] n.command.options.aliases@[j]@,
                ci,
            );
        assert(node_words(n)[j + 1] == n.command.options.aliases@[j]@);
    }
}

/// Two names that one word matches match each other.
pub(crate) proof fn lemma_name_matches_joins(w: Seq<char>, a: Seq<char>, b: Seq<char>, ci: bool)
    requires
        name_matches(w, a, ci),
        name_matches(w, b, ci),
    ensures
        name_matches(a, b, ci),
{
    if ci {
        assert forall|i: int| 0 <= i < a.len() implies eq_char_ci(a[i], b[i]) by {
            assert(eq_char_ci(w[i], a[i]));
            assert(eq_char_ci(w[i], b[i]));
        }
    }
}

} // verus!
