//! The memcached server.

use crate::body::{Block, BlockView, Table, TableView, TextView};
use crate::construct::parts::{
    app_label, app_label_table, metadata, metadata_block, paced, paced_block,
};
use crate::error::{ErrorView, GraphError};
use crate::stack::{Handle, Role, Stack};
use crate::stage::{
    first_unset, first_unset_from, refusal, required, settled, slot_view, Stage, StageView,
};
use crate::tree::{
    built_under, childless, declared, grown, is_scope, lemma_built_under_one_more, scopeless,
    well_formed, RoleView, TreeView,
};
use crate::value::{IntoValue, ValueCell};
use vstd::prelude::*;

verus! {

/// A memcached server: its service and the workload that runs it.
pub struct Memcached {
    node: Handle,
    name: String,
    namespace: ValueCell<String>,
    memory_limit: ValueCell<String>,
}

/// The mathematical value of a [`Memcached`].
pub struct MemcachedView {
    pub node: int,
    pub name: Seq<char>,
    pub namespace: TextView,
    pub memory_limit: TextView,
}

impl View for Memcached {
    type V = MemcachedView;

    closed spec fn view(&self) -> MemcachedView {
        MemcachedView {
            node: self.node.index as int,
            name: self.name@,
            namespace: self.namespace@,
            memory_limit: self.memory_limit@,
        }
    }
}

/// The service that exposes the port of the cache.
pub open spec fn memcached_service(memcached: MemcachedView) -> BlockView {
    BlockView::empty().block("metadata"@, metadata(memcached.namespace, memcached.name)).block(
        "spec"@,
        BlockView::empty().table("selector"@, app_label("memcached-"@ + memcached.name)).block(
            "port"@,
            BlockView::empty().number("port"@, 11211),
        ),
    )
}

/// The container that runs the cache.
pub open spec fn memcached_server(memcached: MemcachedView) -> BlockView {
    BlockView::empty().literal("name"@, "memcached"@).literal(
        "image"@,
        "memcached:1.6.19-alpine"@,
    ).block("port"@, BlockView::empty().number("container_port"@, 11211)).block(
        "liveness_probe"@,
        paced(
            BlockView::empty().block(
                "tcp_socket"@,
                BlockView::empty().literal("port"@, "11211"@),
            ),
        ),
    ).block(
        "resources"@,
        BlockView::empty().table(
            "requests"@,
            TableView::empty().cell("memory"@, memcached.memory_limit),
        ),
    )
}

/// The workload: one replica of the cache.
pub open spec fn memcached_workload(memcached: MemcachedView) -> BlockView {
    BlockView::empty().block("metadata"@, metadata(memcached.namespace, memcached.name)).block(
        "spec"@,
        BlockView::empty().literal("replicas"@, "1"@).block(
            "selector"@,
            BlockView::empty().table("match_labels"@, app_label("memcached-"@ + memcached.name)),
        ).block(
            "template"@,
            BlockView::empty().block(
                "metadata"@,
                BlockView::empty().table("labels"@, app_label("memcached-"@ + memcached.name)),
            ).block("spec"@, BlockView::empty().block("container"@, memcached_server(memcached))),
        ),
    )
}

/// The tree after a memcached server was built under `scope`: the scope of
/// the server, created last, and below it the service and then the
/// workload.
pub open spec fn memcached_tree(tree: TreeView, scope: int, memcached: MemcachedView) -> TreeView {
    let this = tree.len() as int;
    let own = grown(tree, scope, memcached.name, RoleView::Scope);
    let service = declared(
        own,
        this,
        "kubernetes_service"@,
        "memcached"@,
        memcached_service(memcached),
    );
    declared(
        service,
        this,
        "kubernetes_deployment"@,
        "memcached"@,
        memcached_workload(memcached),
    )
}

impl Memcached {
    /// A builder for the memcached server `name` under `scope`, with no
    /// field set.
    pub fn create(scope: Handle, name: &str) -> (builder: MemcachedBuilder)
        ensures
            builder@ == MemcachedBuilderView::fresh(scope.index as int, name@),
    {
        MemcachedBuilder { stage: Stage::new(scope, name), namespace: None, memory_limit: None }
    }

    /// The scope of the server in its stack.
    pub fn node(&self) -> (node: Handle)
        ensures
            node.index as int == self@.node,
    {
        self.node
    }

    fn service(&self) -> (body: Block)
        ensures
            body@ == memcached_service(self@),
    {
        let app = "memcached-".to_owned().concat(self.name.as_str());
        Block::new().block("metadata", metadata_block(&self.namespace, self.name.as_str())).block(
            "spec",
            Block::new().table("selector", app_label_table(app.as_str())).block(
                "port",
                Block::new().number("port", 11211),
            ),
        )
    }

    fn server(&self) -> (body: Block)
        ensures
            body@ == memcached_server(self@),
    {
        Block::new().literal("name", "memcached").literal(
            "image",
            "memcached:1.6.19-alpine",
        ).block("port", Block::new().number("container_port", 11211)).block(
            "liveness_probe",
            paced_block(Block::new().block("tcp_socket", Block::new().literal("port", "11211"))),
        ).block(
            "resources",
            Block::new().table("requests", Table::new().cell("memory", self.memory_limit.clone())),
        )
    }

    fn workload(&self) -> (body: Block)
        ensures
            body@ == memcached_workload(self@),
    {
        let app = "memcached-".to_owned().concat(self.name.as_str());
        Block::new().block("metadata", metadata_block(&self.namespace, self.name.as_str())).block(
            "spec",
            Block::new().literal("replicas", "1").block(
                "selector",
                Block::new().table("match_labels", app_label_table(app.as_str())),
            ).block(
                "template",
                Block::new().block(
                    "metadata",
                    Block::new().table("labels", app_label_table(app.as_str())),
                ).block("spec", Block::new().block("container", self.server())),
            ),
        )
    }

    /// Declares what the server consists of below its scope, which was
    /// created last and under `scope`.
    fn declare(&self, stack: &mut Stack, Ghost(tree): Ghost<TreeView>, Ghost(scope): Ghost<int>)
        requires
            well_formed(tree),
            is_scope(tree, scope),
            self@.node == tree.len(),
            old(stack).wf(),
            old(stack)@ == grown(tree, scope, self@.name, RoleView::Scope),
            childless(old(stack)@, self@.node),
        ensures
            final(stack).wf(),
            final(stack)@ == memcached_tree(tree, scope, self@),
            scopeless(final(stack)@, self@.node),
    {
        let node = self.node;
        proof {
            reveal_strlit("kubernetes_service");
            reveal_strlit("kubernetes_deployment");
            assert("kubernetes_service"@.len() == 18);
            assert("kubernetes_deployment"@.len() == 21);
        }
        let service_body = self.service();
        stack.plant(
            node,
            "memcached",
            Role::Resource { kind: "kubernetes_service".to_owned(), body: service_body },
        );
        let workload_body = self.workload();
        stack.plant(
            node,
            "memcached",
            Role::Resource { kind: "kubernetes_deployment".to_owned(), body: workload_body },
        );
    }
}

/// The fields of a memcached server while they are being set.
pub struct MemcachedBuilder {
    stage: Stage,
    namespace: Option<ValueCell<String>>,
    memory_limit: Option<ValueCell<String>>,
}

/// The mathematical value of a [`MemcachedBuilder`].
pub struct MemcachedBuilderView {
    pub stage: StageView,
    pub namespace: Option<TextView>,
    pub memory_limit: Option<TextView>,
}

impl View for MemcachedBuilder {
    type V = MemcachedBuilderView;

    closed spec fn view(&self) -> MemcachedBuilderView {
        MemcachedBuilderView {
            stage: self.stage@,
            namespace: slot_view(self.namespace),
            memory_limit: slot_view(self.memory_limit),
        }
    }
}

impl MemcachedBuilderView {
    /// The builder for `name` under `scope` with no field set.
    pub open spec fn fresh(scope: int, name: Seq<char>) -> MemcachedBuilderView {
        MemcachedBuilderView {
            stage: StageView { scope, name, built: false },
            namespace: None,
            memory_limit: None,
        }
    }

    /// The required fields, in the order in which they are checked, each
    /// with whether it is set.
    pub open spec fn required(self) -> Seq<(Seq<char>, bool)> {
        seq![
            ("namespace"@, self.namespace is Some),
            ("memory_limit"@, self.memory_limit is Some),
        ]
    }

    /// The first required field that is not set, if there is one.
    pub open spec fn missing(self) -> Option<Seq<char>> {
        if self.namespace is None {
            Some("namespace"@)
        } else if self.memory_limit is None {
            Some("memory_limit"@)
        } else {
            None
        }
    }

    /// The field that is named as missing is the first of the required
    /// fields that is not set.
    pub proof fn lemma_missing_is_first_unset(self)
        ensures
            self.missing() == first_unset(self.required()),
    {
        reveal_with_fuel(first_unset_from, 3);
    }

    /// The server that the builder describes once every field is set.
    pub open spec fn finished(self, node: int) -> MemcachedView {
        MemcachedView {
            node,
            name: self.stage.name,
            namespace: self.namespace->0,
            memory_limit: self.memory_limit->0,
        }
    }
}

impl MemcachedBuilder {
    /// Sets the namespace that the server lives in.
    pub fn namespace<V: IntoValue>(&mut self, value: V) -> (next: &mut MemcachedBuilder)
        ensures
            next@ == (MemcachedBuilderView { namespace: Some(value.cell()), ..old(self)@ }),
            final(self)@ == final(next)@,
    {
        self.namespace = Some(value.into_value());
        self
    }

    /// Sets the memory that the server asks for.
    pub fn memory_limit<V: IntoValue>(&mut self, value: V) -> (next: &mut MemcachedBuilder)
        ensures
            next@ == (MemcachedBuilderView { memory_limit: Some(value.cell()), ..old(self)@ }),
            final(self)@ == final(next)@,
    {
        self.memory_limit = Some(value.into_value());
        self
    }

    /// The server that the fields describe, were it to stand at `node`;
    /// fails where a required field is not set.
    fn finish(&self, node: Handle) -> (made: Result<Memcached, GraphError>)
        ensures
            match made {
                Ok(memcached) => self@.missing() is None && memcached@ == self@.finished(
                    node.index as int,
                ),
                Err(error) => self@.missing() is Some && error@ == (ErrorView::MissingField {
                    field: self@.missing()->0,
                }),
            },
    {
        let namespace = required(&self.namespace, "namespace")?;
        let memory_limit = required(&self.memory_limit, "memory_limit")?;
        Ok(Memcached { node, name: self.stage.name().clone(), namespace, memory_limit })
    }

    /// Checks the fields and, where none is missing, declares the server in
    /// `stack`.
    ///
    /// The one build of a builder: whatever comes of it, the builder counts
    /// as built afterwards. A build that fails leaves the stack as it was.
    pub fn build(&mut self, stack: &mut Stack) -> (made: Result<Memcached, GraphError>)
        requires
            old(stack).wf(),
        ensures
            final(stack).wf(),
            final(self)@ == (MemcachedBuilderView {
                stage: StageView { built: true, ..old(self)@.stage },
                ..old(self)@
            }),
            match made {
                Ok(memcached) => {
                    &&& refusal(old(self)@.stage, old(self)@.missing(), old(stack)@) is None
                    &&& settled(old(stack)@, final(stack)@, old(self)@.stage)
                    &&& memcached@ == old(self)@.finished(old(stack)@.len() as int)
                    &&& final(stack)@ == memcached_tree(
                        old(stack)@,
                        old(self)@.stage.scope,
                        memcached@,
                    )
                },
                Err(error) => {
                    &&& refusal(old(self)@.stage, old(self)@.missing(), old(stack)@) == Some(error@)
                    &&& final(stack)@ == old(stack)@
                },
            },
    {
        self.stage.begin()?;
        let this = self.finish(Handle { index: stack.len() })?;
        stack.create_child(self.stage.scope(), self.stage.name().as_str())?;
        this.declare(stack, Ghost(old(stack)@), Ghost(old(self)@.stage.scope));
        proof {
            assert(built_under(old(stack)@, stack@, old(self)@.stage.scope, old(self)@.stage.name));
            lemma_built_under_one_more(
                old(stack)@,
                stack@,
                old(self)@.stage.scope,
                old(self)@.stage.name,
            );
        }
        Ok(this)
    }
}

} // verus!
