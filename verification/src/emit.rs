//! Laying out a stack for the backend: the declarations in order, and the
//! references among them.

use crate::body::{Attr, AttrView, Block, BlockView, EntryView, PairView, Table, TextList, TextView};
use crate::ident::{identify, path_id};
use crate::order::{emission_order, scan, visit};
use crate::stack::{Handle, Role, Stack};
use crate::tree::{address, is_node, well_formed, TreeView};
use crate::value::{CellView, NodePath, PathView, ValueCell};
use vstd::prelude::*;

verus! {

/// One declaration of the emitted sequence: a provider or a resource of the
/// stack, with the identifier under which the backend will know it.
pub struct Declaration {
    pub node: Handle,
    pub id: String,
}

/// The mathematical value of a [`Declaration`].
pub struct DeclarationView {
    pub node: int,
    pub id: Seq<char>,
}

impl View for Declaration {
    type V = DeclarationView;

    open spec fn view(&self) -> DeclarationView {
        DeclarationView { node: self.node.index as int, id: self.id@ }
    }
}

/// A reference that the declaration number `from` of the emitted sequence
/// makes to `attribute` of the node at `node`. Where that node is declared
/// in the sequence, `to` is the number of its declaration.
pub struct Edge {
    pub from: usize,
    pub to: Option<usize>,
    pub node: NodePath,
    pub attribute: String,
}

/// The mathematical value of an [`Edge`].
pub struct EdgeView {
    pub from: int,
    pub to: Option<int>,
    pub node: PathView,
    pub attribute: Seq<char>,
}

impl View for Edge {
    type V = EdgeView;

    open spec fn view(&self) -> EdgeView {
        EdgeView {
            from: self.from as int,
            to: match self.to {
                Some(to) => Some(to as int),
                None => None,
            },
            node: self.node@,
            attribute: self.attribute@,
        }
    }
}

/// What is handed to the backend: the declarations in order, and the
/// references among them.
pub struct Emission {
    pub declarations: Vec<Declaration>,
    pub edges: Vec<Edge>,
}

/// The mathematical value of an [`Emission`].
pub struct EmissionView {
    pub declarations: Seq<DeclarationView>,
    pub edges: Seq<EdgeView>,
}

/// The values of a list of declarations.
pub open spec fn declaration_views(declarations: Seq<Declaration>) -> Seq<DeclarationView> {
    Seq::new(declarations.len(), |i: int| declarations[i]@)
}

/// The values of a list of edges.
pub open spec fn edge_views(edges: Seq<Edge>) -> Seq<EdgeView> {
    Seq::new(edges.len(), |i: int| edges[i]@)
}

impl View for Emission {
    type V = EmissionView;

    open spec fn view(&self) -> EmissionView {
        EmissionView {
            declarations: declaration_views(self.declarations@),
            edges: edge_views(self.edges@),
        }
    }
}

/// The reference that a cell makes, if it makes one, with its target not
/// yet looked for.
pub open spec fn cell_edges(from: int, cell: TextView) -> Seq<EdgeView> {
    match cell {
        CellView::Literal(_) => Seq::empty(),
        CellView::Reference(node, attribute) => seq![
            EdgeView { from, to: None, node, attribute },
        ],
    }
}

/// The references of the first `upto` cells of a list.
pub open spec fn texts_edges(from: int, cells: Seq<TextView>, upto: nat) -> Seq<EdgeView>
    decreases upto,
{
    if upto == 0 || upto > cells.len() {
        Seq::empty()
    } else {
        texts_edges(from, cells, (upto - 1) as nat) + cell_edges(from, cells[upto - 1])
    }
}

/// The references of the first `upto` pairs of a table.
pub open spec fn table_edges(from: int, pairs: Seq<PairView>, upto: nat) -> Seq<EdgeView>
    decreases upto,
{
    if upto == 0 || upto > pairs.len() {
        Seq::empty()
    } else {
        table_edges(from, pairs, (upto - 1) as nat) + cell_edges(from, pairs[upto - 1].value)
    }
}

/// The references of an attribute, in the order in which it was written.
pub open spec fn attr_edges(from: int, attr: AttrView) -> Seq<EdgeView>
    decreases attr, 0nat,
{
    match attr {
        AttrView::Text(cell) => cell_edges(from, cell),
        AttrView::Number(_) => Seq::empty(),
        AttrView::Flag(_) => Seq::empty(),
        AttrView::Texts(list) => texts_edges(from, list.items, list.items.len()),
        AttrView::Table(table) => table_edges(from, table.pairs, table.pairs.len()),
        AttrView::Blocks(blocks) => blocks_edges(from, blocks, blocks.len()),
    }
}

/// The references of the first `upto` blocks of a list.
pub open spec fn blocks_edges(from: int, blocks: Seq<BlockView>, upto: nat) -> Seq<EdgeView>
    decreases blocks, upto,
{
    if upto == 0 || upto > blocks.len() {
        Seq::empty()
    } else {
        blocks_edges(from, blocks, (upto - 1) as nat) + entries_edges(
            from,
            blocks[upto - 1].entries,
            blocks[upto - 1].entries.len(),
        )
    }
}

/// The references of the first `upto` attributes of a block.
pub open spec fn entries_edges(from: int, entries: Seq<EntryView>, upto: nat) -> Seq<EdgeView>
    decreases entries, upto,
{
    if upto == 0 || upto > entries.len() {
        Seq::empty()
    } else {
        entries_edges(from, entries, (upto - 1) as nat) + attr_edges(from, entries[upto - 1].value)
    }
}

/// The references of a block, in the order in which it was written.
pub open spec fn block_edges(from: int, block: BlockView) -> Seq<EdgeView> {
    entries_edges(from, block.entries, block.entries.len())
}

/// The declaration that stands for `node`.
pub open spec fn declaration_of(tree: TreeView, node: int) -> DeclarationView {
    DeclarationView { node, id: path_id(tree[node].path) }
}

/// The declarations that stand for the nodes `order`.
pub open spec fn declarations_of(tree: TreeView, order: Seq<int>) -> Seq<DeclarationView> {
    Seq::new(order.len(), |k: int| declaration_of(tree, order[k]))
}

/// The references of the first `upto` declarations of `order`.
pub open spec fn edges_of(tree: TreeView, order: Seq<int>, upto: nat) -> Seq<EdgeView>
    decreases upto,
{
    if upto == 0 || upto > order.len() {
        Seq::empty()
    } else {
        edges_of(tree, order, (upto - 1) as nat) + block_edges(
            upto - 1,
            tree[order[upto - 1]].role.body(),
        )
    }
}

/// The number, from `from` on, of the first declaration of `order` that
/// stands for the node at `node`, if there is one.
pub open spec fn declared_at(tree: TreeView, order: Seq<int>, node: PathView, from: int) -> Option<
    int,
>
    decreases order.len() - from,
{
    if from < 0 || from >= order.len() {
        None
    } else if address(tree, order[from]) == node {
        Some(from)
    } else {
        declared_at(tree, order, node, from + 1)
    }
}

/// The references `edges`, each with the declaration of `order` that it
/// points to.
pub open spec fn resolved(tree: TreeView, order: Seq<int>, edges: Seq<EdgeView>) -> Seq<EdgeView> {
    Seq::new(
        edges.len(),
        |i: int| EdgeView { to: declared_at(tree, order, edges[i].node, 0), ..edges[i] },
    )
}

/// What emitting a tree yields: its declarations, each parent's before its
/// children's and the children's in the order of their creation, and the
/// references of each declaration in the order in which they were written,
/// each with the declaration that it points to.
pub open spec fn emission(tree: TreeView) -> EmissionView {
    let order = emission_order(tree);
    EmissionView {
        declarations: declarations_of(tree, order),
        edges: resolved(tree, order, edges_of(tree, order, order.len())),
    }
}

/// A reference that has a target points to the declaration of its node, and
/// to the first such; one that has none points to a node that is not
/// declared in the sequence.
pub proof fn lemma_declared_at(tree: TreeView, order: Seq<int>, node: PathView, from: int)
    requires
        0 <= from,
    ensures
        match declared_at(tree, order, node, from) {
            Some(at) => {
                &&& from <= at < order.len()
                &&& address(tree, order[at]) == node
                &&& forall|k: int| from <= k < at ==> address(tree, #[trigger] order[k]) != node
            },
            None => forall|k: int|
                from <= k < order.len() ==> address(tree, #[trigger] order[k]) != node,
        },
    decreases order.len() - from,
{
    if from < order.len() && address(tree, order[from]) != node {
        lemma_declared_at(tree, order, node, from + 1);
    }
}

/// Emission is determined by the tree: what is emitted for a tree is
/// emitted for every tree equal to it, declaration for declaration and
/// reference for reference.
pub proof fn lemma_emission_is_determined(tree: TreeView, again: TreeView)
    requires
        tree == again,
    ensures
        emission(tree).declarations == emission(again).declarations,
        emission(tree).edges == emission(again).edges,
{
}

/// The numbers of a list of handles.
pub open spec fn numbers(handles: Seq<Handle>) -> Seq<int> {
    Seq::new(handles.len(), |i: int| handles[i].index as int)
}

/// Adds the reference that a cell makes, if it makes one, to `edges`.
fn cell_edges_into(from: usize, cell: &ValueCell<String>, edges: &mut Vec<Edge>)
    ensures
        edge_views(final(edges)@) == edge_views(old(edges)@) + cell_edges(from as int, cell@),
{
    match cell {
        ValueCell::Literal(_) => {
            assert(edge_views(edges@) =~= edge_views(edges@) + cell_edges(from as int, cell@));
        },
        ValueCell::Reference(node, attribute) => {
            let ghost before = edges@;
            edges.push(Edge { from, to: None, node: node.clone(), attribute: attribute.clone() });
            assert(edge_views(edges@) =~= edge_views(before) + cell_edges(from as int, cell@));
        },
    }
}

/// Adds the references of a list to `edges`.
fn texts_edges_into(from: usize, list: &TextList, edges: &mut Vec<Edge>)
    ensures
        edge_views(final(edges)@) == edge_views(old(edges)@) + texts_edges(
            from as int,
            list@.items,
            list@.items.len(),
        ),
{
    let ghost start = edge_views(edges@);
    let mut i: usize = 0;
    assert(edge_views(edges@) =~= start + texts_edges(from as int, list@.items, 0));
    while i < list.items.len()
        invariant
            i <= list.items.len(),
            edge_views(edges@) == start + texts_edges(from as int, list@.items, i as nat),
        decreases list.items.len() - i,
    {
        cell_edges_into(from, &list.items[i], edges);
        assert(edge_views(edges@) =~= start + texts_edges(
            from as int,
            list@.items,
            (i + 1) as nat,
        ));
        i += 1;
    }
}

/// Adds the references of a table to `edges`.
fn table_edges_into(from: usize, table: &Table, edges: &mut Vec<Edge>)
    ensures
        edge_views(final(edges)@) == edge_views(old(edges)@) + table_edges(
            from as int,
            table@.pairs,
            table@.pairs.len(),
        ),
{
    let ghost start = edge_views(edges@);
    let mut i: usize = 0;
    assert(edge_views(edges@) =~= start + table_edges(from as int, table@.pairs, 0));
    while i < table.pairs.len()
        invariant
            i <= table.pairs.len(),
            edge_views(edges@) == start + table_edges(from as int, table@.pairs, i as nat),
        decreases table.pairs.len() - i,
    {
        cell_edges_into(from, &table.pairs[i].value, edges);
        assert(edge_views(edges@) =~= start + table_edges(
            from as int,
            table@.pairs,
            (i + 1) as nat,
        ));
        i += 1;
    }
}

/// Adds the references of an attribute to `edges`.
fn attr_edges_into(from: usize, attr: &Attr, edges: &mut Vec<Edge>)
    ensures
        edge_views(final(edges)@) == edge_views(old(edges)@) + attr_edges(from as int, attr@),
    decreases attr,
{
    match attr {
        Attr::Text(cell) => cell_edges_into(from, cell, edges),
        Attr::Number(_) => {
            assert(edge_views(edges@) =~= edge_views(edges@) + attr_edges(from as int, attr@));
        },
        Attr::Flag(_) => {
            assert(edge_views(edges@) =~= edge_views(edges@) + attr_edges(from as int, attr@));
        },
        Attr::Texts(list) => texts_edges_into(from, list, edges),
        Attr::Table(table) => table_edges_into(from, table, edges),
        Attr::Blocks(blocks) => {
            let ghost start = edge_views(edges@);
            let ghost views = attr@->Blocks_0;
            let mut i: usize = 0;
            assert(edge_views(edges@) =~= start + blocks_edges(from as int, views, 0));
            while i < blocks.len()
                invariant
                    i <= blocks.len(),
                    attr == Attr::Blocks(*blocks),
                    views == attr@->Blocks_0,
                    views.len() == blocks.len(),
                    edge_views(edges@) == start + blocks_edges(from as int, views, i as nat),
                decreases blocks.len() - i,
            {
                assert(views[i as int] == blocks[i as int]@);
                block_edges_into(from, &blocks[i], edges);
                assert(edge_views(edges@) =~= start + blocks_edges(
                    from as int,
                    views,
                    (i + 1) as nat,
                ));
                i += 1;
            }
        },
    }
}

/// Adds the references of a block to `edges`.
fn block_edges_into(from: usize, block: &Block, edges: &mut Vec<Edge>)
    ensures
        edge_views(final(edges)@) == edge_views(old(edges)@) + block_edges(from as int, block@),
    decreases block,
{
    let ghost start = edge_views(edges@);
    let ghost views = block@.entries;
    let mut i: usize = 0;
    assert(edge_views(edges@) =~= start + entries_edges(from as int, views, 0));
    while i < block.entries.len()
        invariant
            i <= block.entries.len(),
            views == block@.entries,
            views.len() == block.entries.len(),
            edge_views(edges@) == start + entries_edges(from as int, views, i as nat),
        decreases block.entries.len() - i,
    {
        assert(views[i as int].value == block.entries[i as int].value@);
        attr_edges_into(from, &block.entries[i].value, edges);
        assert(edge_views(edges@) =~= start + entries_edges(from as int, views, (i + 1) as nat));
        i += 1;
    }
}

impl Stack {
    /// Adds the declarations at and below `node` to `order`.
    fn visit_into(&self, node: usize, order: &mut Vec<Handle>)
        requires
            node < self@.len(),
            forall|k: int|
                0 <= k < old(order).len() ==> is_node(self@, #[trigger] old(order)[k].index as int),
        ensures
            numbers(final(order)@) == numbers(old(order)@) + visit(self@, node as int),
            forall|k: int|
                0 <= k < final(order).len() ==> is_node(
                    self@,
                    #[trigger] final(order)[k].index as int,
                ),
        decreases self@.len() - node,
    {
        let ghost start = numbers(order@);
        let ghost tree = self@;
        let count = self.len();
        match self.node(Handle { index: node }) {
            Some(found) => match &found.role {
                Role::Scope => {},
                _ => {
                    order.push(Handle { index: node });
                },
            },
            None => {},
        }
        let ghost own = if tree[node as int].role is Scope {
            Seq::<int>::empty()
        } else {
            seq![node as int]
        };
        assert(numbers(order@) =~= start + own);
        let mut next: usize = node + 1;
        assert(numbers(order@) + scan(tree, node as int, next as int) =~= start + visit(
            tree,
            node as int,
        ));
        while next < count
            invariant
                node < next <= count,
                count == tree.len(),
                tree == self@,
                numbers(order@) + scan(tree, node as int, next as int) == start + visit(
                    tree,
                    node as int,
                ),
                forall|k: int|
                    0 <= k < order.len() ==> is_node(tree, #[trigger] order[k].index as int),
            decreases count - next,
        {
            let hangs_here = match self.node(Handle { index: next }) {
                Some(found) => match found.parent {
                    Some(above) => above == node,
                    None => false,
                },
                None => false,
            };
            if hangs_here {
                let ghost before = numbers(order@);
                self.visit_into(next, order);
                assert(numbers(order@) + scan(tree, node as int, next + 1) =~= before + scan(
                    tree,
                    node as int,
                    next as int,
                ));
            }
            next += 1;
        }
        assert(numbers(order@) =~= numbers(order@) + scan(tree, node as int, next as int));
    }

    /// The number of the first declaration of `order` that stands for the
    /// node at `node`, if there is one.
    fn find_declared(&self, order: &Vec<Handle>, node: &NodePath) -> (found: Option<usize>)
        requires
            forall|k: int|
                0 <= k < order.len() ==> is_node(self@, #[trigger] order[k].index as int),
        ensures
            match found {
                Some(at) => declared_at(self@, numbers(order@), node@, 0) == Some(at as int),
                None => declared_at(self@, numbers(order@), node@, 0) is None,
            },
    {
        let ghost tree = self@;
        let ghost planned = numbers(order@);
        let mut k: usize = 0;
        while k < order.len()
            invariant
                k <= order.len(),
                tree == self@,
                planned == numbers(order@),
                forall|l: int|
                    0 <= l < order.len() ==> is_node(tree, #[trigger] order[l].index as int),
                declared_at(tree, planned, node@, 0) == declared_at(tree, planned, node@, k as int),
            decreases order.len() - k,
        {
            assert(is_node(tree, order[k as int].index as int));
            match self.node(order[k]) {
                Some(declared) => {
                    let class = declared.role.class();
                    if node.leads_to(&class, &declared.path) {
                        return Some(k);
                    }
                },
                None => {},
            }
            k += 1;
        }
        None
    }

    /// The declarations of the stack and the references among them, as they
    /// are handed to the backend.
    ///
    /// A parent's declarations come before its children's, and children in
    /// the order in which they were created, so that the same stack always
    /// yields the same sequence. References are carried as they are: nothing
    /// is looked up.
    pub fn emit(&self) -> (emitted: Emission)
        requires
            self.wf(),
        ensures
            emitted@ == emission(self@),
    {
        let ghost tree = self@;
        let mut order: Vec<Handle> = Vec::new();
        assert(numbers(order@) =~= Seq::<int>::empty());
        self.visit_into(0, &mut order);
        assert(numbers(order@) =~= emission_order(tree));
        let ghost planned = numbers(order@);
        let mut declarations: Vec<Declaration> = Vec::new();
        let mut edges: Vec<Edge> = Vec::new();
        let mut k: usize = 0;
        assert(edge_views(edges@) =~= edges_of(tree, planned, 0));
        while k < order.len()
            invariant
                k <= order.len(),
                tree == self@,
                well_formed(tree),
                planned == numbers(order@),
                forall|l: int|
                    0 <= l < order.len() ==> is_node(tree, #[trigger] order[l].index as int),
                declarations.len() == k,
                forall|l: int|
                    0 <= l < k ==> (#[trigger] declarations[l])@ == declaration_of(
                        tree,
                        planned[l],
                    ),
                edge_views(edges@) == edges_of(tree, planned, k as nat),
            decreases order.len() - k,
        {
            let handle = order[k];
            assert(is_node(tree, order[k as int].index as int));
            match self.node(handle) {
                Some(found) => {
                    proof {
                        let i = handle.index as int;
                        assert(found@ == tree[i]);
                        if i >= 1 {
                            let above = tree[i].parent->0;
                            assert(tree[i].path == tree[above].path.push(tree[i].name));
                        }
                        assert(found.path.deep_view().len() == found.path.len());
                    }
                    let id = identify(&found.path);
                    declarations.push(Declaration { node: handle, id });
                    match found.role.body() {
                        Some(body) => {
                            block_edges_into(k, body, &mut edges);
                        },
                        None => {
                            assert(edge_views(edges@) =~= edge_views(edges@) + block_edges(
                                k as int,
                                BlockView::empty(),
                            ));
                        },
                    }
                },
                None => {},
            }
            k += 1;
        }
        let ghost found = edge_views(edges@);
        let mut aimed: Vec<Edge> = Vec::new();
        let mut i: usize = 0;
        while i < edges.len()
            invariant
                i <= edges.len(),
                tree == self@,
                planned == numbers(order@),
                found == edge_views(edges@),
                forall|l: int|
                    0 <= l < order.len() ==> is_node(tree, #[trigger] order[l].index as int),
                aimed.len() == i,
                forall|l: int|
                    0 <= l < i ==> (#[trigger] aimed[l])@ == resolved(tree, planned, found)[l],
            decreases edges.len() - i,
        {
            let edge = &edges[i];
            assert(found[i as int] == edge@);
            let to = self.find_declared(&order, &edge.node);
            aimed.push(
                Edge {
                    from: edge.from,
                    to,
                    node: edge.node.clone(),
                    attribute: edge.attribute.clone(),
                },
            );
            i += 1;
        }
        let emitted = Emission { declarations, edges: aimed };
        assert(emitted@.declarations =~= declarations_of(tree, planned));
        assert(emitted@.edges =~= resolved(tree, planned, found));
        emitted
    }
}

} // verus!
