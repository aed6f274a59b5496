//! The order in which the declarations of a tree are emitted, and what
//! holds of it.

use crate::tree::{is_node, well_formed, TreeView};
use vstd::prelude::*;
use vstd::seq_lib::lemma_no_dup_in_concat;

verus! {

/// The declarations at and below `node`, each before what hangs below it.
pub open spec fn visit(tree: TreeView, node: int) -> Seq<int>
    decreases tree.len() - node, tree.len() + 1,
{
    if is_node(tree, node) {
        let own = if tree[node].role is Scope {
            Seq::<int>::empty()
        } else {
            seq![node]
        };
        own + scan(tree, node, node + 1)
    } else {
        Seq::empty()
    }
}

/// The declarations at and below those children of `parent` that were
/// created as node number `from` or later, the children in the order of
/// their creation.
pub open spec fn scan(tree: TreeView, parent: int, from: int) -> Seq<int>
    decreases tree.len() - parent, tree.len() - from,
{
    if 0 <= parent < from < tree.len() {
        if tree[from].parent == Some(parent) {
            visit(tree, from) + scan(tree, parent, from + 1)
        } else {
            scan(tree, parent, from + 1)
        }
    } else {
        Seq::empty()
    }
}

/// The declarations of the whole tree in the order of emission.
pub open spec fn emission_order(tree: TreeView) -> Seq<int> {
    visit(tree, 0)
}

/// Whether `node` is `ancestor` itself or hangs, however far, below it.
pub open spec fn descends(tree: TreeView, ancestor: int, node: int) -> bool
    decreases node,
{
    if !is_node(tree, node) {
        false
    } else if node == ancestor {
        true
    } else {
        match tree[node].parent {
            Some(parent) => 0 <= parent < node && descends(tree, ancestor, parent),
            None => false,
        }
    }
}

/// Whether `node` is a provider or a resource of the tree.
pub open spec fn is_declaration(tree: TreeView, node: int) -> bool {
    is_node(tree, node) && !(tree[node].role is Scope)
}

/// Whether `child` is a child of `parent` that was created as node number
/// `from` or later.
pub open spec fn is_late_child(tree: TreeView, parent: int, from: int, child: int) -> bool {
    from <= child < tree.len() && tree[child].parent == Some(parent)
}

/// That the tree is well formed, said so that a proof only learns what this
/// means where it asks.
#[verifier::opaque]
spec fn sound(tree: TreeView) -> bool {
    well_formed(tree)
}

/// What is in one of two joined sequences is in the sequence that they
/// make, and nothing else is.
proof fn lemma_contains_joined(first: Seq<int>, second: Seq<int>, x: int)
    ensures
        (first + second).contains(x) <==> first.contains(x) || second.contains(x),
{
    let joined = first + second;
    if first.contains(x) {
        let i = choose|i: int| 0 <= i < first.len() && first[i] == x;
        assert(joined[i] == x);
    }
    if second.contains(x) {
        let i = choose|i: int| 0 <= i < second.len() && second[i] == x;
        assert(joined[first.len() + i] == x);
    }
    if joined.contains(x) {
        let i = choose|i: int| 0 <= i < joined.len() && joined[i] == x;
        if i < first.len() {
            assert(first[i] == x);
        } else {
            assert(second[i - first.len()] == x);
        }
    }
}

/// A node never comes before one that it descends from.
proof fn lemma_descends_later(tree: TreeView, ancestor: int, node: int)
    requires
        descends(tree, ancestor, node),
    ensures
        ancestor <= node,
    decreases node,
{
    if node != ancestor {
        lemma_descends_later(tree, ancestor, tree[node].parent->0);
    }
}

/// What descends from a child descends from its parent.
proof fn lemma_descends_from_parent(tree: TreeView, parent: int, child: int, node: int)
    requires
        sound(tree),
        is_node(tree, child),
        tree[child].parent == Some(parent),
        descends(tree, child, node),
    ensures
        descends(tree, parent, node),
    decreases node,
{
    reveal(sound);
    if node == child {
        assert(child >= 1);
        assert(descends(tree, parent, parent));
    } else {
        lemma_descends_from_parent(tree, parent, child, tree[node].parent->0);
        lemma_descends_later(tree, parent, tree[node].parent->0);
    }
}

/// What descends from a node, and is not that node, descends from one of
/// its children.
proof fn lemma_descends_through_child(tree: TreeView, ancestor: int, node: int) -> (child: int)
    requires
        sound(tree),
        descends(tree, ancestor, node),
        node != ancestor,
    ensures
        is_late_child(tree, ancestor, ancestor + 1, child),
        descends(tree, child, node),
    decreases node,
{
    reveal(sound);
    let above = tree[node].parent->0;
    assert(node >= 1);
    if above == ancestor {
        node
    } else {
        lemma_descends_through_child(tree, ancestor, above)
    }
}

/// Nothing descends from two children of one node.
proof fn lemma_siblings_share_nothing(tree: TreeView, first: int, second: int, node: int)
    requires
        sound(tree),
        is_node(tree, first),
        is_node(tree, second),
        tree[first].parent is Some,
        tree[first].parent == tree[second].parent,
        descends(tree, first, node),
        descends(tree, second, node),
    ensures
        first == second,
    decreases node,
{
    reveal(sound);
    assert(first >= 1 && second >= 1);
    if node == first {
        if first != second {
            lemma_descends_later(tree, second, tree[first].parent->0);
        }
    } else if node == second {
        lemma_descends_later(tree, first, tree[second].parent->0);
    } else {
        lemma_siblings_share_nothing(tree, first, second, tree[node].parent->0);
    }
}

/// Every node descends from the root.
proof fn lemma_descends_from_root(tree: TreeView, node: int)
    requires
        sound(tree),
        is_node(tree, node),
    ensures
        descends(tree, 0, node),
    decreases node,
{
    reveal(sound);
    if node != 0 {
        lemma_descends_from_root(tree, tree[node].parent->0);
    }
}

/// Whether a child of `parent` that was created as node number `from` or
/// later is `node` or has it below itself.
pub open spec fn descends_from_late_child(
    tree: TreeView,
    parent: int,
    from: int,
    node: int,
) -> bool {
    exists|child: int| is_late_child(tree, parent, from, child) && descends(tree, child, node)
}

/// Visiting a node yields the declarations that descend from it, and
/// nothing else.
proof fn lemma_visit_members(tree: TreeView, node: int, x: int)
    requires
        sound(tree),
        is_node(tree, node),
    ensures
        visit(tree, node).contains(x) <==> descends(tree, node, x) && is_declaration(tree, x),
    decreases tree.len() - node, tree.len() + 1,
{
    let own = if tree[node].role is Scope {
        Seq::<int>::empty()
    } else {
        seq![node]
    };
    let below = scan(tree, node, node + 1);
    assert(visit(tree, node) == own + below);
    lemma_scan_members(tree, node, node + 1, x);
    lemma_contains_joined(own, below, x);
    if own.contains(x) {
        let i = choose|i: int| 0 <= i < own.len() && own[i] == x;
        assert(x == node);
    }
    if x == node && is_declaration(tree, x) {
        assert(own[0] == x);
    }
    if below.contains(x) {
        let child = choose|child: int|
            is_late_child(tree, node, node + 1, child) && descends(tree, child, x);
        lemma_descends_from_parent(tree, node, child, x);
    }
    if descends(tree, node, x) && x != node {
        let child = lemma_descends_through_child(tree, node, x);
        assert(descends_from_late_child(tree, node, node + 1, x));
    }
}

/// Scanning the children of a node from number `from` on yields the
/// declarations that descend from one of these children, and nothing else.
proof fn lemma_scan_members(tree: TreeView, parent: int, from: int, x: int)
    requires
        sound(tree),
        is_node(tree, parent),
        parent < from <= tree.len(),
    ensures
        scan(tree, parent, from).contains(x) <==> is_declaration(tree, x)
            && descends_from_late_child(tree, parent, from, x),
    decreases tree.len() - parent, tree.len() - from,
{
    if from < tree.len() {
        let rest = scan(tree, parent, from + 1);
        lemma_scan_members(tree, parent, from + 1, x);
        if descends_from_late_child(tree, parent, from + 1, x) {
            let child = choose|child: int|
                is_late_child(tree, parent, from + 1, child) && descends(tree, child, x);
            assert(is_late_child(tree, parent, from, child));
        }
        if tree[from].parent == Some(parent) {
            let head = visit(tree, from);
            assert(scan(tree, parent, from) == head + rest);
            lemma_visit_members(tree, from, x);
            lemma_contains_joined(head, rest, x);
            if descends(tree, from, x) {
                assert(is_late_child(tree, parent, from, from));
            }
            if descends_from_late_child(tree, parent, from, x) {
                let child = choose|child: int|
                    is_late_child(tree, parent, from, child) && descends(tree, child, x);
                if child != from {
                    assert(is_late_child(tree, parent, from + 1, child));
                }
            }
        } else {
            assert(scan(tree, parent, from) == rest);
            if descends_from_late_child(tree, parent, from, x) {
                let child = choose|child: int|
                    is_late_child(tree, parent, from, child) && descends(tree, child, x);
                assert(is_late_child(tree, parent, from + 1, child));
            }
        }
    } else {
        assert(scan(tree, parent, from) == Seq::<int>::empty());
        if descends_from_late_child(tree, parent, from, x) {
            let child = choose|child: int|
                is_late_child(tree, parent, from, child) && descends(tree, child, x);
        }
    }
}

/// Visiting a node yields nothing twice.
proof fn lemma_visit_once(tree: TreeView, node: int)
    requires
        sound(tree),
        is_node(tree, node),
    ensures
        visit(tree, node).no_duplicates(),
    decreases tree.len() - node, tree.len() + 1,
{
    let own = if tree[node].role is Scope {
        Seq::<int>::empty()
    } else {
        seq![node]
    };
    let below = scan(tree, node, node + 1);
    assert(visit(tree, node) == own + below);
    lemma_scan_once(tree, node, node + 1);
    assert forall|i: int, j: int| 0 <= i < own.len() && 0 <= j < below.len() implies own[i]
        != below[j] by {
        if own[i] == below[j] {
            assert(below.contains(node));
            lemma_scan_members(tree, node, node + 1, node);
            let child = choose|child: int|
                is_late_child(tree, node, node + 1, child) && descends(tree, child, node);
            lemma_descends_later(tree, child, node);
        }
    }
    lemma_no_dup_in_concat(own, below);
}

/// Scanning the children of a node yields nothing twice.
proof fn lemma_scan_once(tree: TreeView, parent: int, from: int)
    requires
        sound(tree),
        is_node(tree, parent),
        parent < from <= tree.len(),
    ensures
        scan(tree, parent, from).no_duplicates(),
    decreases tree.len() - parent, tree.len() - from,
{
    if from < tree.len() {
        let rest = scan(tree, parent, from + 1);
        lemma_scan_once(tree, parent, from + 1);
        if tree[from].parent == Some(parent) {
            let head = visit(tree, from);
            assert(scan(tree, parent, from) == head + rest);
            lemma_visit_once(tree, from);
            assert forall|i: int, j: int| 0 <= i < head.len() && 0 <= j < rest.len() implies head[i]
                != rest[j] by {
                if head[i] == rest[j] {
                    let x = head[i];
                    assert(head.contains(x));
                    assert(rest.contains(x));
                    lemma_visit_members(tree, from, x);
                    lemma_scan_members(tree, parent, from + 1, x);
                    let child = choose|child: int|
                        is_late_child(tree, parent, from + 1, child) && descends(tree, child, x);
                    lemma_siblings_share_nothing(tree, from, child, x);
                }
            }
            lemma_no_dup_in_concat(head, rest);
        } else {
            assert(scan(tree, parent, from) == rest);
        }
    } else {
        assert(scan(tree, parent, from) == Seq::<int>::empty());
    }
}

/// Where `sequence` holds `x`.
spec fn place_of(sequence: Seq<int>, x: int) -> int {
    choose|i: int| 0 <= i < sequence.len() && sequence[i] == x
}

/// Among what a scan yields, what descends from an earlier child comes
/// before what descends from a later one.
proof fn lemma_scan_keeps_order(
    tree: TreeView,
    parent: int,
    from: int,
    first: int,
    second: int,
    i: int,
    j: int,
)
    requires
        sound(tree),
        is_node(tree, parent),
        parent < from <= tree.len(),
        is_late_child(tree, parent, from, first),
        is_late_child(tree, parent, from, second),
        first < second,
        0 <= i < scan(tree, parent, from).len(),
        0 <= j < scan(tree, parent, from).len(),
        descends(tree, first, scan(tree, parent, from)[i]),
        descends(tree, second, scan(tree, parent, from)[j]),
    ensures
        i < j,
    decreases tree.len() - from,
{
    let all = scan(tree, parent, from);
    let x = all[i];
    let y = all[j];
    let rest = scan(tree, parent, from + 1);
    if tree[from].parent == Some(parent) {
        let head = visit(tree, from);
        assert(all == head + rest);
        if i < head.len() {
            assert(head[i] == x);
            assert(head.contains(x));
            lemma_visit_members(tree, from, x);
            lemma_siblings_share_nothing(tree, from, first, x);
        } else {
            assert(rest[i - head.len()] == x);
            assert(rest.contains(x));
        }
        if j < head.len() {
            assert(head[j] == y);
            assert(head.contains(y));
            lemma_visit_members(tree, from, y);
            lemma_siblings_share_nothing(tree, from, second, y);
        } else {
            assert(rest[j - head.len()] == y);
            assert(rest.contains(y));
        }
        if from == first {
            if i >= head.len() {
                lemma_scan_members(tree, parent, from + 1, x);
                let child = choose|child: int|
                    is_late_child(tree, parent, from + 1, child) && descends(tree, child, x);
                lemma_siblings_share_nothing(tree, first, child, x);
            }
        } else {
            lemma_scan_keeps_order(
                tree,
                parent,
                from + 1,
                first,
                second,
                i - head.len(),
                j - head.len(),
            );
        }
    } else {
        assert(all == rest);
        lemma_scan_keeps_order(tree, parent, from + 1, first, second, i, j);
    }
}

/// What a visit of a child yields stands, as it is, within what a scan of
/// the children yields.
proof fn lemma_visit_within_scan(tree: TreeView, parent: int, from: int, child: int) -> (offset:
    int)
    requires
        sound(tree),
        is_node(tree, parent),
        parent < from,
        is_late_child(tree, parent, from, child),
    ensures
        0 <= offset,
        offset + visit(tree, child).len() <= scan(tree, parent, from).len(),
        forall|k: int|
            0 <= k < visit(tree, child).len() ==> scan(tree, parent, from)[offset + k]
                == #[trigger] visit(tree, child)[k],
    decreases tree.len() - from,
{
    let rest = scan(tree, parent, from + 1);
    if tree[from].parent == Some(parent) {
        let head = visit(tree, from);
        assert(scan(tree, parent, from) == head + rest);
        if from == child {
            0
        } else {
            let inner = lemma_visit_within_scan(tree, parent, from + 1, child);
            assert forall|k: int| 0 <= k < visit(tree, child).len() implies scan(
                tree,
                parent,
                from,
            )[head.len() + inner + k] == #[trigger] visit(tree, child)[k] by {
                assert(rest[inner + k] == visit(tree, child)[k]);
            }
            head.len() + inner
        }
    } else {
        assert(scan(tree, parent, from) == rest);
        lemma_visit_within_scan(tree, parent, from + 1, child)
    }
}

/// What a visit of a node yields stands, as it is, within the order of
/// emission.
proof fn lemma_visit_within_emission(tree: TreeView, node: int) -> (offset: int)
    requires
        sound(tree),
        is_node(tree, node),
    ensures
        0 <= offset,
        offset + visit(tree, node).len() <= emission_order(tree).len(),
        forall|k: int|
            0 <= k < visit(tree, node).len() ==> emission_order(tree)[offset + k]
                == #[trigger] visit(tree, node)[k],
    decreases node,
{
    reveal(sound);
    if node == 0 {
        0
    } else {
        let above = tree[node].parent->0;
        let outer = lemma_visit_within_emission(tree, above);
        let inner = lemma_visit_within_scan(tree, above, above + 1, node);
        let own: int = if tree[above].role is Scope {
            0
        } else {
            1
        };
        let offset = outer + own + inner;
        assert forall|k: int| 0 <= k < visit(tree, node).len() implies emission_order(tree)[offset
            + k] == #[trigger] visit(tree, node)[k] by {
            assert(scan(tree, above, above + 1)[inner + k] == visit(tree, node)[k]);
            assert(visit(tree, above)[own + inner + k] == visit(tree, node)[k]);
            assert(emission_order(tree)[outer + (own + inner + k)] == visit(tree, above)[own + inner
                + k]);
        }
        offset
    }
}

/// Children are emitted in the order of their creation: of two children of
/// one node, all that descends from the one created first is emitted before
/// all that descends from the other.
pub proof fn lemma_earlier_child_is_emitted_first(
    tree: TreeView,
    first: int,
    second: int,
    i: int,
    j: int,
)
    requires
        well_formed(tree),
        is_node(tree, first),
        is_node(tree, second),
        first < second,
        tree[first].parent is Some,
        tree[first].parent == tree[second].parent,
        0 <= i < emission_order(tree).len(),
        0 <= j < emission_order(tree).len(),
        descends(tree, first, emission_order(tree)[i]),
        descends(tree, second, emission_order(tree)[j]),
    ensures
        i < j,
{
    let order = emission_order(tree);
    let x = order[i];
    let y = order[j];
    let above = tree[first].parent->0;
    assert(first >= 1 && second >= 1);
    assert(sound(tree)) by {
        reveal(sound);
    }
    lemma_every_declaration_is_emitted_once(tree);
    assert(order.contains(x));
    assert(order.contains(y));
    let below = scan(tree, above, above + 1);
    let own: int = if tree[above].role is Scope {
        0
    } else {
        1
    };
    lemma_scan_members(tree, above, above + 1, x);
    lemma_scan_members(tree, above, above + 1, y);
    assert(is_late_child(tree, above, above + 1, first) && descends(tree, first, x));
    assert(is_late_child(tree, above, above + 1, second) && descends(tree, second, y));
    assert(below.contains(x));
    assert(below.contains(y));
    let at_x = place_of(below, x);
    let at_y = place_of(below, y);
    lemma_scan_keeps_order(tree, above, above + 1, first, second, at_x, at_y);
    let outer = lemma_visit_within_emission(tree, above);
    assert(visit(tree, above)[own + at_x] == x);
    assert(visit(tree, above)[own + at_y] == y);
    assert(order[outer + (own + at_x)] == x);
    assert(order[outer + (own + at_y)] == y);
}

/// Every provider and every resource of a tree is emitted, each of them
/// once, and nothing else is.
pub proof fn lemma_every_declaration_is_emitted_once(tree: TreeView)
    requires
        well_formed(tree),
    ensures
        emission_order(tree).no_duplicates(),
        forall|node: int| #[trigger]
            emission_order(tree).contains(node) <==> is_declaration(tree, node),
{
    assert(sound(tree)) by {
        reveal(sound);
    }
    lemma_visit_once(tree, 0);
    assert forall|node: int| #[trigger]
        emission_order(tree).contains(node) <==> is_declaration(tree, node) by {
        lemma_visit_members(tree, 0, node);
        if is_declaration(tree, node) {
            lemma_descends_from_root(tree, node);
        }
    }
}

} // verus!
