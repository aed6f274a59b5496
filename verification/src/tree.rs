//! The mathematical model of the scope tree.

use crate::body::BlockView;
use crate::error::ErrorView;
use crate::value::{CellView, ClassView, PathView};
use vstd::prelude::*;

verus! {

/// The mathematical value of what a node stands for.
pub enum RoleView {
    Scope,
    Provider { version: Seq<char>, body: BlockView },
    Resource { kind: Seq<char>, body: BlockView },
}

impl RoleView {
    /// The class of a node with this role.
    pub open spec fn class(self) -> ClassView {
        match self {
            RoleView::Scope => ClassView::Scope,
            RoleView::Provider { .. } => ClassView::Provider,
            RoleView::Resource { kind, .. } => ClassView::Resource(kind),
        }
    }

    /// The block that a declaration carries; a scope carries none.
    pub open spec fn body(self) -> BlockView {
        match self {
            RoleView::Scope => BlockView::empty(),
            RoleView::Provider { body, .. } => body,
            RoleView::Resource { body, .. } => body,
        }
    }
}

/// The mathematical value of a node of the scope tree.
pub struct NodeView {
    /// The name that tells the node from its siblings of the same class.
    pub name: Seq<char>,
    /// The names from the root down to the node.
    pub path: Seq<Seq<char>>,
    /// The number of the parent; the root has none.
    pub parent: Option<int>,
    pub role: RoleView,
}

/// The mathematical value of a scope tree: its nodes, numbered from 0 in the
/// order in which they were created. Node 0 is the root.
pub type TreeView = Seq<NodeView>;

/// The tree that holds nothing but the root scope `name`.
pub open spec fn planted(name: Seq<char>) -> TreeView {
    seq![NodeView { name, path: seq![name], parent: None, role: RoleView::Scope }]
}

/// Whether `node` is a node of `tree`.
pub open spec fn is_node(tree: TreeView, node: int) -> bool {
    0 <= node < tree.len()
}

/// Whether `node` is a scope of `tree`.
pub open spec fn is_scope(tree: TreeView, node: int) -> bool {
    is_node(tree, node) && tree[node].role is Scope
}

/// Whether `child` is the child of `parent` that has the given class and
/// name.
pub open spec fn is_child(
    tree: TreeView,
    parent: int,
    class: ClassView,
    name: Seq<char>,
    child: int,
) -> bool {
    is_node(tree, child) && tree[child].parent == Some(parent) && tree[child].name == name
        && tree[child].role.class() == class
}

/// Whether `parent` has a child of the given class and name.
pub open spec fn has_child(tree: TreeView, parent: int, class: ClassView, name: Seq<char>) -> bool {
    exists|child: int| is_child(tree, parent, class, name, child)
}

/// The tree with one more node, created last, under `parent`.
pub open spec fn grown(tree: TreeView, parent: int, name: Seq<char>, role: RoleView) -> TreeView {
    tree.push(NodeView { name, path: tree[parent].path.push(name), parent: Some(parent), role })
}

/// What comes of adding the node `name` with the role `role` under `parent`:
/// the tree afterwards, and the number of the new node or the reason why
/// there is none. Where `parent` is no scope of the tree the node is
/// unknown, and where it already has a child of that class and name, the
/// name is a duplicate; the tree then stays as it is.
pub open spec fn addition(tree: TreeView, parent: int, name: Seq<char>, role: RoleView) -> (
    TreeView,
    Result<int, ErrorView>,
) {
    if !is_scope(tree, parent) {
        (tree, Err(ErrorView::UnknownNode))
    } else if has_child(tree, parent, role.class(), name) {
        (tree, Err(ErrorView::DuplicateName))
    } else {
        (grown(tree, parent, name, role), Ok(tree.len() as int))
    }
}

/// What comes of asking for the cell that points to `attribute` of `node`:
/// the cell, or that the node is unknown.
pub open spec fn reference_at<V>(tree: TreeView, node: int, attribute: Seq<char>) -> Result<
    CellView<V>,
    ErrorView,
> {
    if is_node(tree, node) {
        Ok(reference_to(tree, node, attribute))
    } else {
        Err(ErrorView::UnknownNode)
    }
}

/// What holds of every scope tree: it starts with a root scope; every other
/// node hangs below a scope that was created before it, and its path is its
/// parent's path followed by its own name; no two children of one scope
/// share both class and name.
pub open spec fn well_formed(tree: TreeView) -> bool {
    &&& tree.len() >= 1
    &&& tree[0].parent is None
    &&& tree[0].role is Scope
    &&& tree[0].path == seq![tree[0].name]
    &&& forall|i: int|
        1 <= i < tree.len() ==> {
            &&& (#[trigger] tree[i]).parent matches Some(parent)
            &&& 0 <= parent < i
            &&& tree[parent].role is Scope
            &&& tree[i].path == tree[parent].path.push(tree[i].name)
        }
    &&& forall|i: int, j: int|
        0 <= i < j < tree.len() && (#[trigger] tree[i]).parent == (#[trigger] tree[j]).parent
            && tree[i].name == tree[j].name ==> tree[i].role.class() != tree[j].role.class()
}

/// The path of a node together with its class, which is what a reference
/// holds of it.
pub open spec fn address(tree: TreeView, node: int) -> PathView {
    PathView { class: tree[node].role.class(), segments: tree[node].path }
}

/// The cell that points to `attribute` of `node`.
pub open spec fn reference_to<V>(tree: TreeView, node: int, attribute: Seq<char>) -> CellView<V> {
    CellView::Reference(address(tree, node), attribute)
}

/// The tree with one more resource, declared last, under `parent`.
pub open spec fn declared(
    tree: TreeView,
    parent: int,
    kind: Seq<char>,
    name: Seq<char>,
    body: BlockView,
) -> TreeView {
    grown(tree, parent, name, RoleView::Resource { kind, body })
}

/// The cell that points to `attribute` of the resource `name` of the type
/// `kind` that hangs below the scope whose path is `home`.
pub open spec fn attribute_of(
    home: Seq<Seq<char>>,
    kind: Seq<char>,
    name: Seq<char>,
    attribute: Seq<char>,
) -> CellView<Seq<char>> {
    CellView::Reference(
        PathView { class: ClassView::Resource(kind), segments: home.push(name) },
        attribute,
    )
}

/// Whether `after` is `before` with a construct built under `scope`: its
/// nodes were created last, the first of them is the scope `name` under
/// `scope`, and every other one hangs below one of them.
pub open spec fn built_under(
    before: TreeView,
    after: TreeView,
    scope: int,
    name: Seq<char>,
) -> bool {
    &&& before.len() < after.len()
    &&& forall|i: int| 0 <= i < before.len() ==> #[trigger] after[i] == before[i]
    &&& after[before.len() as int].parent == Some(scope)
    &&& after[before.len() as int].name == name
    &&& after[before.len() as int].role is Scope
    &&& forall|i: int|
        before.len() < i < after.len() ==> (#[trigger] after[i]).parent is Some
            && after[i].parent->0 >= before.len()
}

/// Whether `node` has no children.
pub open spec fn childless(tree: TreeView, node: int) -> bool {
    forall|class: ClassView, name: Seq<char>| !#[trigger] has_child(tree, node, class, name)
}

/// Whether no scope hangs below `node`.
pub open spec fn scopeless(tree: TreeView, node: int) -> bool {
    forall|name: Seq<char>| !#[trigger] has_child(tree, node, ClassView::Scope, name)
}

/// Whether the nodes of `before` have in `after` the children that they had,
/// but for `parent`, which has one more: the child `name` of the class
/// `class`.
pub open spec fn one_more_child(
    before: TreeView,
    after: TreeView,
    parent: int,
    class: ClassView,
    name: Seq<char>,
) -> bool {
    forall|node: int, kind: ClassView, label: Seq<char>|
        is_node(before, node) ==> (#[trigger] has_child(after, node, kind, label) <==> has_child(
            before,
            node,
            kind,
            label,
        ) || (node == parent && kind == class && label == name))
}

/// A grown tree is well formed where the parent is a scope that has no such
/// child yet.
pub proof fn lemma_grown_well_formed(
    tree: TreeView,
    parent: int,
    name: Seq<char>,
    role: RoleView,
)
    requires
        well_formed(tree),
        is_scope(tree, parent),
        !has_child(tree, parent, role.class(), name),
    ensures
        well_formed(grown(tree, parent, name, role)),
{
    let after = grown(tree, parent, name, role);
    let last = tree.len() as int;
    assert forall|i: int| 1 <= i < after.len() implies {
        &&& (#[trigger] after[i]).parent matches Some(p)
        &&& 0 <= p < i
        &&& after[p].role is Scope
        &&& after[i].path == after[p].path.push(after[i].name)
    } by {
        if i < last {
            assert(after[i] == tree[i]);
            let p = tree[i].parent->0;
            assert(after[p] == tree[p]);
        }
    }
    assert forall|i: int, j: int|
        0 <= i < j < after.len() && (#[trigger] after[i]).parent == (#[trigger] after[j]).parent
            && after[i].name == after[j].name implies after[i].role.class()
        != after[j].role.class() by {
        assert(after[i] == tree[i]);
        if j < last {
            assert(after[j] == tree[j]);
        } else {
            if tree[i].role.class() == role.class() {
                assert(is_child(tree, parent, role.class(), name, i));
            }
        }
    }
}

/// Growing a tree adds exactly one child: the new node, under its parent.
pub proof fn lemma_grown_children(
    tree: TreeView,
    parent: int,
    name: Seq<char>,
    role: RoleView,
    scope: int,
    class: ClassView,
    label: Seq<char>,
)
    requires
        is_node(tree, parent),
    ensures
        has_child(grown(tree, parent, name, role), scope, class, label) <==> (has_child(
            tree,
            scope,
            class,
            label,
        ) || (scope == parent && class == role.class() && label == name)),
{
    let after = grown(tree, parent, name, role);
    let last = tree.len() as int;
    if has_child(after, scope, class, label) {
        let child = choose|child: int| is_child(after, scope, class, label, child);
        if child < last {
            assert(after[child] == tree[child]);
            assert(is_child(tree, scope, class, label, child));
        }
    }
    if has_child(tree, scope, class, label) {
        let child = choose|child: int| is_child(tree, scope, class, label, child);
        assert(after[child] == tree[child]);
        assert(is_child(after, scope, class, label, child));
    }
    if scope == parent && class == role.class() && label == name {
        assert(is_child(after, scope, class, label, last));
    }
}

/// No node hangs below a node that does not exist yet.
pub proof fn lemma_no_child_beyond(tree: TreeView, scope: int, class: ClassView, label: Seq<char>)
    requires
        well_formed(tree),
        scope >= tree.len(),
    ensures
        !has_child(tree, scope, class, label),
{
    if has_child(tree, scope, class, label) {
        let child = choose|child: int| is_child(tree, scope, class, label, child);
        assert(tree[child].parent == Some(scope));
        if child >= 1 {
            assert(tree[child].parent->0 < child);
        }
    }
}

/// The root of a tree that holds nothing else has no children.
pub proof fn lemma_planted_childless(name: Seq<char>)
    ensures
        childless(planted(name), 0),
{
    let tree = planted(name);
    assert forall|class: ClassView, label: Seq<char>| !#[trigger] has_child(
        tree,
        0,
        class,
        label,
    ) by {
        if has_child(tree, 0, class, label) {
            let child = choose|child: int| is_child(tree, 0, class, label, child);
            assert(tree[child].parent is None);
        }
    }
}

/// Growing a tree gives the parent one more child, leaves the children of
/// every other node as they were, and yields a node without children.
pub proof fn lemma_grown_one_more(tree: TreeView, parent: int, name: Seq<char>, role: RoleView)
    requires
        well_formed(tree),
        is_node(tree, parent),
    ensures
        one_more_child(tree, grown(tree, parent, name, role), parent, role.class(), name),
        childless(grown(tree, parent, name, role), tree.len() as int),
{
    let after = grown(tree, parent, name, role);
    assert forall|node: int, kind: ClassView, label: Seq<char>| is_node(tree, node) implies (
    #[trigger] has_child(after, node, kind, label) <==> has_child(tree, node, kind, label) || (node
        == parent && kind == role.class() && label == name)) by {
        lemma_grown_children(tree, parent, name, role, node, kind, label);
    }
    assert forall|kind: ClassView, label: Seq<char>| !#[trigger] has_child(
        after,
        tree.len() as int,
        kind,
        label,
    ) by {
        lemma_grown_children(tree, parent, name, role, tree.len() as int, kind, label);
        lemma_no_child_beyond(tree, tree.len() as int, kind, label);
    }
}

/// Building a construct under `scope` gives `scope` one more child, the
/// scope of the construct, and leaves the children of every other node that
/// was there before as they were.
pub proof fn lemma_built_under_one_more(
    before: TreeView,
    after: TreeView,
    scope: int,
    name: Seq<char>,
)
    requires
        built_under(before, after, scope, name),
    ensures
        one_more_child(before, after, scope, ClassView::Scope, name),
{
    let first = before.len() as int;
    assert forall|node: int, kind: ClassView, label: Seq<char>| is_node(before, node) implies (
    #[trigger] has_child(after, node, kind, label) <==> has_child(before, node, kind, label) || (
    node == scope && kind == ClassView::Scope && label == name)) by {
        if has_child(after, node, kind, label) {
            let child = choose|child: int| is_child(after, node, kind, label, child);
            if child < first {
                assert(after[child] == before[child]);
                assert(is_child(before, node, kind, label, child));
            } else if child > first {
                assert(after[child].parent->0 >= before.len());
            }
        }
        if has_child(before, node, kind, label) {
            let child = choose|child: int| is_child(before, node, kind, label, child);
            assert(after[child] == before[child]);
            assert(is_child(after, node, kind, label, child));
        }
        if node == scope && kind == ClassView::Scope && label == name {
            assert(is_child(after, node, kind, label, first));
        }
    }
}

/// In a well-formed tree no two nodes share class and path.
pub proof fn lemma_address_tells_nodes_apart(tree: TreeView, a: int, b: int)
    requires
        well_formed(tree),
        is_node(tree, a),
        is_node(tree, b),
        address(tree, a) == address(tree, b),
    ensures
        a == b,
    decreases a + b,
{
    if a != b {
        if a == 0 || b == 0 {
            let other = if a == 0 { b } else { a };
            assert(tree[other].parent is Some);
            let parent = tree[other].parent->0;
            assert(tree[other].path == tree[parent].path.push(tree[other].name));
            if parent >= 1 {
                assert(tree[parent].parent is Some);
                let grand = tree[parent].parent->0;
                assert(tree[parent].path == tree[grand].path.push(tree[parent].name));
            }
            assert(tree[other].path.len() >= 2);
            assert(tree[0].path.len() == 1);
        } else {
            let pa = tree[a].parent->0;
            let pb = tree[b].parent->0;
            assert(tree[a].path == tree[pa].path.push(tree[a].name));
            assert(tree[b].path == tree[pb].path.push(tree[b].name));
            assert(tree[a].path.last() == tree[a].name);
            assert(tree[b].path.last() == tree[b].name);
            assert(tree[a].path.drop_last() =~= tree[pa].path);
            assert(tree[b].path.drop_last() =~= tree[pb].path);
            lemma_address_tells_nodes_apart(tree, pa, pb);
            if a < b {
                assert(tree[a].role.class() != tree[b].role.class());
            } else {
                assert(tree[b].role.class() != tree[a].role.class());
            }
        }
    }
}

/// Under a scope, a name can be given only once to a node of one class:
/// whatever came of adding a node, adding one of the same name and class
/// under the same scope again is refused as a duplicate.
pub proof fn lemma_same_name_twice_is_refused(
    tree: TreeView,
    scope: int,
    first_name: Seq<char>,
    second_name: Seq<char>,
    first_role: RoleView,
    second_role: RoleView,
)
    requires
        well_formed(tree),
        is_scope(tree, scope),
        first_name == second_name,
        first_role.class() == second_role.class(),
    ensures
        addition(addition(tree, scope, first_name, first_role).0, scope, second_name, second_role).1
            == Err::<int, ErrorView>(ErrorView::DuplicateName),
{
    let between = addition(tree, scope, first_name, first_role).0;
    if has_child(tree, scope, first_role.class(), first_name) {
        assert(between == tree);
    } else {
        lemma_grown_children(
            tree,
            scope,
            first_name,
            first_role,
            scope,
            second_role.class(),
            second_name,
        );
        assert(between[scope] == tree[scope]);
    }
}

/// Adding a node keeps a tree well formed, and changes nothing of the nodes
/// that were there before.
pub proof fn lemma_addition_keeps_tree(tree: TreeView, parent: int, name: Seq<char>, role: RoleView)
    requires
        well_formed(tree),
    ensures
        well_formed(addition(tree, parent, name, role).0),
        forall|node: int|
            is_node(tree, node) ==> #[trigger] addition(tree, parent, name, role).0[node]
                == tree[node],
{
    if addition(tree, parent, name, role).1 is Ok {
        lemma_grown_well_formed(tree, parent, name, role);
    }
}

/// Two references are equal exactly if they point to the same attribute of
/// the same node: a reference to a node equals every other reference to the
/// same attribute of that node, and differs from every reference to
/// another node, whatever the attribute.
pub proof fn lemma_references_tell_nodes_apart<V>(
    tree: TreeView,
    a: int,
    b: int,
    attribute: Seq<char>,
    other_attribute: Seq<char>,
)
    requires
        well_formed(tree),
        is_node(tree, a),
        is_node(tree, b),
    ensures
        reference_to::<V>(tree, a, attribute) == reference_to::<V>(tree, a, attribute),
        a != b ==> reference_to::<V>(tree, a, attribute) != reference_to::<V>(
            tree,
            b,
            other_attribute,
        ),
        (attribute != other_attribute) ==> reference_to::<V>(tree, a, attribute)
            != reference_to::<V>(tree, a, other_attribute),
{
    if a != b && address(tree, a) == address(tree, b) {
        lemma_address_tells_nodes_apart(tree, a, b);
    }
}

} // verus!
