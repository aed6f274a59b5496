//! The scope tree: the root scope and all that is created below it.

use crate::body::Block;
use crate::error::{ErrorView, GraphError};
use crate::tree::{
    addition, childless, grown, has_child, is_child, is_node, is_scope, lemma_grown_one_more,
    lemma_grown_well_formed, lemma_planted_childless, one_more_child, planted, reference_at,
    reference_to, well_formed, NodeView, RoleView, TreeView,
};
use crate::value::{copy_names, CellView, Class, NodePath, ValueCell};
use vstd::prelude::*;

verus! {

/// The number under which a stack knows one of its nodes.
#[derive(Clone, Copy, Debug, PartialEq, Eq, Structural)]
pub struct Handle {
    pub index: usize,
}

/// What a node stands for.
pub enum Role {
    /// A scope: the stack itself, or a construct that parents what it
    /// declares.
    Scope,
    /// The configuration of a provider in the given version.
    Provider { version: String, body: Block },
    /// A managed resource of the type `kind`.
    Resource { kind: String, body: Block },
}

impl View for Role {
    type V = RoleView;

    open spec fn view(&self) -> RoleView {
        match self {
            Role::Scope => RoleView::Scope,
            Role::Provider { version, body } => RoleView::Provider {
                version: version@,
                body: body@,
            },
            Role::Resource { kind, body } => RoleView::Resource { kind: kind@, body: body@ },
        }
    }
}

impl Role {
    /// The class of a node with this role.
    pub fn class(&self) -> (class: Class)
        ensures
            class@ == self@.class(),
    {
        match self {
            Role::Scope => Class::Scope,
            Role::Provider { .. } => Class::Provider,
            Role::Resource { kind, .. } => Class::Resource(kind.clone()),
        }
    }

    /// Whether a node with this role and one with the role `other` are of
    /// the same class.
    pub fn same_class(&self, other: &Role) -> (same: bool)
        ensures
            same == (self@.class() == other@.class()),
    {
        match self {
            Role::Scope => match other {
                Role::Scope => true,
                _ => false,
            },
            Role::Provider { .. } => match other {
                Role::Provider { .. } => true,
                _ => false,
            },
            Role::Resource { kind, .. } => match other {
                Role::Resource { kind: other_kind, .. } => *kind == *other_kind,
                _ => false,
            },
        }
    }

    /// The block that a declaration carries; a scope carries none.
    pub fn body(&self) -> (body: Option<&Block>)
        ensures
            match self@ {
                RoleView::Scope => body is None,
                _ => body matches Some(block) && block@ == self@.body(),
            },
    {
        match self {
            Role::Scope => None,
            Role::Provider { body, .. } => Some(body),
            Role::Resource { body, .. } => Some(body),
        }
    }
}

/// A node of the scope tree.
pub struct Node {
    pub name: String,
    pub path: Vec<String>,
    pub parent: Option<usize>,
    pub role: Role,
}

impl View for Node {
    type V = NodeView;

    open spec fn view(&self) -> NodeView {
        NodeView {
            name: self.name@,
            path: self.path.deep_view(),
            parent: match self.parent {
                Some(parent) => Some(parent as int),
                None => None,
            },
            role: self.role@,
        }
    }
}

/// The scope tree of one deployment: the root scope and all that was created
/// below it, each node under exactly one parent.
///
/// Nodes are only ever added, never moved or taken out, so a handle stays
/// good for as long as the stack lives.
pub struct Stack {
    nodes: Vec<Node>,
}

impl View for Stack {
    type V = TreeView;

    closed spec fn view(&self) -> TreeView {
        Seq::new(self.nodes.len() as nat, |i: int| self.nodes[i]@)
    }
}

/// The value of what adding a node came to.
pub open spec fn added(made: Result<Handle, GraphError>) -> Result<int, ErrorView> {
    match made {
        Ok(handle) => Ok(handle.index as int),
        Err(error) => Err(error@),
    }
}

/// The value of what asking for a reference came to.
pub open spec fn referred<T: View>(made: Result<ValueCell<T>, GraphError>) -> Result<
    CellView<T::V>,
    ErrorView,
> {
    match made {
        Ok(cell) => Ok(cell@),
        Err(error) => Err(error@),
    }
}

impl Stack {
    /// What holds of every stack that this library hands out.
    pub open spec fn wf(&self) -> bool {
        well_formed(self@)
    }

    /// A stack that holds nothing but its root scope `name`.
    pub fn new(name: &str) -> (stack: Stack)
        ensures
            stack.wf(),
            stack@ == planted(name@),
            childless(stack@, 0),
    {
        proof {
            lemma_planted_childless(name@);
        }
        let mut path: Vec<String> = Vec::new();
        path.push(name.to_owned());
        let root = Node { name: name.to_owned(), path, parent: None, role: Role::Scope };
        assert(root@.path =~= seq![name@]);
        let mut nodes: Vec<Node> = Vec::new();
        nodes.push(root);
        let stack = Stack { nodes };
        assert(stack@ =~= planted(name@));
        stack
    }

    /// The handle of the root scope.
    pub fn root(&self) -> (root: Handle)
        ensures
            root.index == 0,
    {
        Handle { index: 0 }
    }

    /// The number of nodes.
    pub fn len(&self) -> (count: usize)
        ensures
            count == self@.len(),
    {
        self.nodes.len()
    }

    /// The node behind `handle`, where the stack has it.
    pub fn node(&self, handle: Handle) -> (node: Option<&Node>)
        ensures
            match node {
                Some(found) => is_node(self@, handle.index as int) && found@
                    == self@[handle.index as int],
                None => !is_node(self@, handle.index as int),
            },
    {
        if handle.index < self.nodes.len() {
            Some(&self.nodes[handle.index])
        } else {
            None
        }
    }

    /// The name of the root scope.
    pub fn name(&self) -> (name: &String)
        requires
            self.wf(),
        ensures
            name@ == self@[0].name,
    {
        &self.nodes[0].name
    }

    /// The handles of the children of `parent`, in the order in which they
    /// were created.
    pub fn children(&self, parent: Handle) -> (children: Vec<Handle>)
        ensures
            forall|k: int|
                0 <= k < children.len() ==> is_node(self@, #[trigger] children[k].index as int)
                    && self@[children[k].index as int].parent == Some(parent.index as int),
            forall|k: int, l: int|
                0 <= k < l < children.len() ==> children[k].index < children[l].index,
            forall|child: int|
                is_node(self@, child) && (#[trigger] self@[child]).parent == Some(
                    parent.index as int,
                ) ==> exists|k: int| 0 <= k < children.len() && children[k].index == child,
    {
        let mut children: Vec<Handle> = Vec::new();
        let mut i: usize = 0;
        while i < self.nodes.len()
            invariant
                i <= self.nodes.len(),
                forall|k: int| 0 <= k < children.len() ==> (#[trigger] children[k]).index < i
                    && self@[children[k].index as int].parent == Some(parent.index as int),
                forall|k: int, l: int|
                0 <= k < l < children.len() ==> children[k].index < children[l].index,
                forall|child: int|
                    0 <= child < i && (#[trigger] self@[child]).parent == Some(parent.index as int)
                        ==> exists|k: int| 0 <= k < children.len() && children[k].index == child,
            decreases self.nodes.len() - i,
        {
            let hangs_here = match self.nodes[i].parent {
                Some(above) => above == parent.index,
                None => false,
            };
            if hangs_here {
                let ghost before = children@;
                children.push(Handle { index: i });
                assert forall|child: int|
                    0 <= child < i + 1 && (#[trigger] self@[child]).parent == Some(
                        parent.index as int,
                    ) implies exists|k: int|
                    0 <= k < children.len() && children[k].index == child by {
                    if child < i {
                        let k = choose|k: int| 0 <= k < before.len() && before[k].index == child;
                        assert(children[k].index == child);
                    } else {
                        assert(children[before.len() as int].index == child);
                    }
                }
            }
            i += 1;
        }
        children
    }

    /// Adds a node under `parent`.
    fn add(&mut self, parent: Handle, name: &str, role: Role) -> (made: Result<Handle, GraphError>)
        requires
            old(self).wf(),
        ensures
            final(self).wf(),
            (final(self)@, added(made)) == addition(
                old(self)@,
                parent.index as int,
                name@,
                role@,
            ),
            added(made) is Ok ==> one_more_child(
                old(self)@,
                final(self)@,
                parent.index as int,
                role@.class(),
                name@,
            ) && childless(final(self)@, old(self)@.len() as int),
    {
        let count = self.nodes.len();
        if parent.index >= count {
            return Err(GraphError::UnknownNode);
        }
        match &self.nodes[parent.index].role {
            Role::Scope => {},
            _ => {
                return Err(GraphError::UnknownNode);
            },
        }
        let label = name.to_owned();
        let ghost before = self@;
        let mut i: usize = 0;
        while i < count
            invariant
                i <= count,
                count == self.nodes.len(),
                label@ == name@,
                self@ == before,
                well_formed(before),
                is_scope(before, parent.index as int),
                forall|child: int|
                    0 <= child < i ==> !is_child(
                        self@,
                        parent.index as int,
                        role@.class(),
                        name@,
                        child,
                    ),
            decreases count - i,
        {
            let node = &self.nodes[i];
            let hangs_here = match node.parent {
                Some(above) => above == parent.index,
                None => false,
            };
            if hangs_here && node.name == label && node.role.same_class(&role) {
                assert(is_child(self@, parent.index as int, role@.class(), name@, i as int));
                return Err(GraphError::DuplicateName);
            }
            i += 1;
        }
        Ok(self.plant(parent, name, role))
    }

    /// Adds a node under the scope `parent`, which has no such child yet.
    pub(crate) fn plant(&mut self, parent: Handle, name: &str, role: Role) -> (handle: Handle)
        requires
            old(self).wf(),
            is_scope(old(self)@, parent.index as int),
            !has_child(old(self)@, parent.index as int, role@.class(), name@),
        ensures
            final(self).wf(),
            handle.index == old(self)@.len(),
            final(self)@ == grown(old(self)@, parent.index as int, name@, role@),
            one_more_child(
                old(self)@,
                final(self)@,
                parent.index as int,
                role@.class(),
                name@,
            ),
            childless(final(self)@, old(self)@.len() as int),
    {
        let count = self.nodes.len();
        let mut path = copy_names(&self.nodes[parent.index].path);
        path.push(name.to_owned());
        let ghost before = self@;
        let ghost role_view = role@;
        let node = Node { name: name.to_owned(), path, parent: Some(parent.index), role };
        assert(node@.path =~= before[parent.index as int].path.push(name@));
        self.nodes.push(node);
        proof {
            assert(self@ =~= grown(before, parent.index as int, name@, role_view));
            lemma_grown_well_formed(before, parent.index as int, name@, role_view);
            lemma_grown_one_more(before, parent.index as int, name@, role_view);
        }
        Handle { index: count }
    }

    /// Creates the scope `name` under the scope `parent`.
    ///
    /// Fails with `UnknownNode` where `parent` is no scope of the stack, and
    /// with `DuplicateName` where `parent` already has a scope of that name.
    pub fn create_child(&mut self, parent: Handle, name: &str) -> (made: Result<Handle, GraphError>)
        requires
            old(self).wf(),
        ensures
            final(self).wf(),
            (final(self)@, added(made)) == addition(
                old(self)@,
                parent.index as int,
                name@,
                RoleView::Scope,
            ),
            added(made) is Ok ==> one_more_child(
                old(self)@,
                final(self)@,
                parent.index as int,
                RoleView::Scope.class(),
                name@,
            ) && childless(final(self)@, old(self)@.len() as int),
    {
        self.add(parent, name, Role::Scope)
    }

    /// Declares the resource `name` of the type `kind` under the scope
    /// `parent`.
    ///
    /// Fails with `UnknownNode` where `parent` is no scope of the stack, and
    /// with `DuplicateName` where `parent` already has a resource of that
    /// type and name.
    pub fn declare_resource(
        &mut self,
        parent: Handle,
        kind: &str,
        name: &str,
        body: Block,
    ) -> (made: Result<Handle, GraphError>)
        requires
            old(self).wf(),
        ensures
            final(self).wf(),
            (final(self)@, added(made)) == addition(
                old(self)@,
                parent.index as int,
                name@,
                RoleView::Resource { kind: kind@, body: body@ },
            ),
            added(made) is Ok ==> one_more_child(
                old(self)@,
                final(self)@,
                parent.index as int,
                (RoleView::Resource { kind: kind@, body: body@ }).class(),
                name@,
            ) && childless(final(self)@, old(self)@.len() as int),
    {
        self.add(parent, name, Role::Resource { kind: kind.to_owned(), body })
    }

    /// Declares the provider `source` in the version `version` under the
    /// scope `parent`.
    ///
    /// Fails with `UnknownNode` where `parent` is no scope of the stack, and
    /// with `DuplicateName` where `parent` already has that provider.
    pub fn declare_provider(
        &mut self,
        parent: Handle,
        source: &str,
        version: &str,
        body: Block,
    ) -> (made: Result<Handle, GraphError>)
        requires
            old(self).wf(),
        ensures
            final(self).wf(),
            (final(self)@, added(made)) == addition(
                old(self)@,
                parent.index as int,
                source@,
                RoleView::Provider { version: version@, body: body@ },
            ),
            added(made) is Ok ==> one_more_child(
                old(self)@,
                final(self)@,
                parent.index as int,
                (RoleView::Provider { version: version@, body: body@ }).class(),
                source@,
            ) && childless(final(self)@, old(self)@.len() as int),
    {
        self.add(parent, source, Role::Provider { version: version.to_owned(), body })
    }

    /// The cell that points to `attribute` of `node`.
    ///
    /// Nothing is asked of the attribute: it may only come to exist when the
    /// graph is applied. Fails with `UnknownNode` where `node` is no node of
    /// the stack.
    pub fn reference<T: View>(&self, node: Handle, attribute: &str) -> (made: Result<
        ValueCell<T>,
        GraphError,
    >)
        requires
            self.wf(),
        ensures
            referred(made) == reference_at::<T::V>(self@, node.index as int, attribute@),
    {
        if node.index >= self.nodes.len() {
            return Err(GraphError::UnknownNode);
        }
        Ok(self.refer(node, attribute))
    }

    /// The cell that points to `attribute` of the node `node` of the stack.
    pub(crate) fn refer<T: View>(&self, node: Handle, attribute: &str) -> (cell: ValueCell<T>)
        requires
            self.wf(),
            is_node(self@, node.index as int),
        ensures
            cell@ == reference_to::<T::V>(self@, node.index as int, attribute@),
    {
        let target = &self.nodes[node.index];
        let segments = copy_names(&target.path);
        proof {
            let tree = self@;
            let i = node.index as int;
            assert(tree[i] == target@);
            if i >= 1 {
                let above = tree[i].parent->0;
                assert(tree[i].path == tree[above].path.push(tree[i].name));
            }
            assert(segments.deep_view().len() == segments.len());
        }
        let path = NodePath::new(target.role.class(), segments);
        ValueCell::Reference(path, attribute.to_owned())
    }
}

} // verus!
