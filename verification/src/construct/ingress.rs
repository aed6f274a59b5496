//! The ingress that leads to the services.

use crate::body::{Attr, AttrView, Block, BlockView, TextView};
use crate::construct::parts::{metadata, metadata_block};
use crate::error::{ErrorView, GraphError};
use crate::stack::{Handle, Role, Stack};
use crate::stage::{
    first_unset, first_unset_from, refusal, required, settled, slot_view, Stage, StageView,
};
use crate::tree::{built_under, declared, grown, lemma_built_under_one_more, RoleView, TreeView};
use crate::value::{IntoValue, ValueCell};
use vstd::prelude::*;

verus! {

/// Where an ingress sends the requests for one path.
pub struct IngressServiceConfig {
    pub path: String,
    pub service_name: String,
    pub service_port: i64,
}

/// The mathematical value of an [`IngressServiceConfig`].
pub struct ServiceConfigView {
    pub path: Seq<char>,
    pub service_name: Seq<char>,
    pub service_port: int,
}

impl View for IngressServiceConfig {
    type V = ServiceConfigView;

    open spec fn view(&self) -> ServiceConfigView {
        ServiceConfigView {
            path: self.path@,
            service_name: self.service_name@,
            service_port: self.service_port as int,
        }
    }
}

impl Clone for IngressServiceConfig {
    fn clone(&self) -> (copy: IngressServiceConfig)
        ensures
            copy@ == self@,
    {
        IngressServiceConfig {
            path: self.path.clone(),
            service_name: self.service_name.clone(),
            service_port: self.service_port,
        }
    }
}

/// The values of a list of service configurations.
pub open spec fn services_view(services: Seq<IngressServiceConfig>) -> Seq<ServiceConfigView> {
    Seq::new(services.len(), |i: int| services[i]@)
}

/// A copy of a list of service configurations.
pub fn copy_services(services: &Vec<IngressServiceConfig>) -> (copy: Vec<IngressServiceConfig>)
    ensures
        services_view(copy@) == services_view(services@),
{
    let mut copy: Vec<IngressServiceConfig> = Vec::new();
    let mut i: usize = 0;
    while i < services.len()
        invariant
            i <= services.len(),
            copy.len() == i,
            forall|k: int| 0 <= k < i ==> copy[k]@ == services[k]@,
        decreases services.len() - i,
    {
        copy.push(services[i].clone());
        i += 1;
    }
    assert(services_view(copy@) =~= services_view(services@));
    copy
}

/// An ingress: the rule that sends each path to its service.
pub struct Ingress {
    node: Handle,
    name: String,
    namespace: ValueCell<String>,
    services: Vec<IngressServiceConfig>,
}

/// The mathematical value of an [`Ingress`].
pub struct IngressView {
    pub node: int,
    pub name: Seq<char>,
    pub namespace: TextView,
    pub services: Seq<ServiceConfigView>,
}

impl View for Ingress {
    type V = IngressView;

    closed spec fn view(&self) -> IngressView {
        IngressView {
            node: self.node.index as int,
            name: self.name@,
            namespace: self.namespace@,
            services: services_view(self.services@),
        }
    }
}

/// The rule for one path: whatever starts with the path goes to the port of
/// the service.
pub open spec fn ingress_path(service: ServiceConfigView) -> BlockView {
    BlockView::empty().literal("path_type"@, "Prefix"@).literal("path"@, service.path).block(
        "backend"@,
        BlockView::empty().block(
            "service"@,
            BlockView::empty().literal("name"@, service.service_name).block(
                "port"@,
                BlockView::empty().number("number"@, service.service_port),
            ),
        ),
    )
}

/// The rules for the paths of `services`, in their order.
pub open spec fn ingress_paths(services: Seq<ServiceConfigView>) -> Seq<BlockView> {
    Seq::new(services.len(), |i: int| ingress_path(services[i]))
}

/// The declaration of the ingress.
pub open spec fn ingress_body(ingress: IngressView) -> BlockView {
    BlockView::empty().block(
        "metadata"@,
        metadata(ingress.namespace, ingress.name + "-ingress"@),
    ).block(
        "spec"@,
        BlockView::empty().block(
            "rule"@,
            BlockView::empty().block(
                "http"@,
                BlockView::empty().with("path"@, AttrView::Blocks(ingress_paths(ingress.services))),
            ),
        ),
    )
}

/// The tree after an ingress was built under `scope`: the scope of the
/// ingress, created last, and below it the ingress itself.
pub open spec fn ingress_tree(tree: TreeView, scope: int, ingress: IngressView) -> TreeView {
    declared(
        grown(tree, scope, ingress.name, RoleView::Scope),
        tree.len() as int,
        "kubernetes_ingress_v1"@,
        "ingress"@,
        ingress_body(ingress),
    )
}

impl Ingress {
    /// A builder for the ingress `name` under `scope`, with no field set.
    pub fn create(scope: Handle, name: &str) -> (builder: IngressBuilder)
        ensures
            builder@ == IngressBuilderView::fresh(scope.index as int, name@),
    {
        IngressBuilder { stage: Stage::new(scope, name), namespace: None, services: None }
    }

    /// The scope of the ingress in its stack.
    pub fn node(&self) -> (node: Handle)
        ensures
            node.index as int == self@.node,
    {
        self.node
    }

    fn path(service: &IngressServiceConfig) -> (body: Block)
        ensures
            body@ == ingress_path(service@),
    {
        Block::new().literal("path_type", "Prefix").literal("path", service.path.as_str()).block(
            "backend",
            Block::new().block(
                "service",
                Block::new().literal("name", service.service_name.as_str()).block(
                    "port",
                    Block::new().number("number", service.service_port),
                ),
            ),
        )
    }

    fn body(&self) -> (body: Block)
        ensures
            body@ == ingress_body(self@),
    {
        let mut paths: Vec<Block> = Vec::new();
        let mut i: usize = 0;
        while i < self.services.len()
            invariant
                i <= self.services.len(),
                paths.len() == i,
                forall|k: int| 0 <= k < i ==> paths[k]@ == ingress_path(self.services[k]@),
            decreases self.services.len() - i,
        {
            paths.push(Ingress::path(&self.services[i]));
            i += 1;
        }
        let rules = Attr::Blocks(paths);
        assert(rules@->Blocks_0 =~= ingress_paths(self@.services));
        let full_name = self.name.clone().concat("-ingress");
        Block::new().block("metadata", metadata_block(&self.namespace, full_name.as_str())).block(
            "spec",
            Block::new().block(
                "rule",
                Block::new().block("http", Block::new().with("path", rules)),
            ),
        )
    }
}

/// The fields of an ingress while they are being set.
pub struct IngressBuilder {
    stage: Stage,
    namespace: Option<ValueCell<String>>,
    services: Option<Vec<IngressServiceConfig>>,
}

/// The mathematical value of an [`IngressBuilder`].
pub struct IngressBuilderView {
    pub stage: StageView,
    pub namespace: Option<TextView>,
    pub services: Option<Seq<ServiceConfigView>>,
}

impl View for IngressBuilder {
    type V = IngressBuilderView;

    closed spec fn view(&self) -> IngressBuilderView {
        IngressBuilderView {
            stage: self.stage@,
            namespace: slot_view(self.namespace),
            services: match self.services {
                Some(services) => Some(services_view(services@)),
                None => None,
            },
        }
    }
}

impl IngressBuilderView {
    /// The builder for `name` under `scope` with no field set.
    pub open spec fn fresh(scope: int, name: Seq<char>) -> IngressBuilderView {
        IngressBuilderView {
            stage: StageView { scope, name, built: false },
            namespace: None,
            services: None,
        }
    }

    /// The required fields, in the order in which they are checked, each
    /// with whether it is set.
    pub open spec fn required(self) -> Seq<(Seq<char>, bool)> {
        seq![
            ("namespace"@, self.namespace is Some),
            ("services"@, self.services is Some),
        ]
    }

    /// The first required field that is not set, if there is one.
    pub open spec fn missing(self) -> Option<Seq<char>> {
        if self.namespace is None {
            Some("namespace"@)
        } else if self.services is None {
            Some("services"@)
        } else {
            None
        }
    }

    /// The field that is named as missing is the first of the required
    /// fields that is not set.
    pub proof fn lemma_missing_is_first_unset(self)
        ensures
            self.missing() == first_unset(self.required()),
    {
        reveal_with_fuel(first_unset_from, 3);
    }

    /// The ingress that the builder describes once every field is set.
    pub open spec fn finished(self, node: int) -> IngressView {
        IngressView {
            node,
            name: self.stage.name,
            namespace: self.namespace->0,
            services: self.services->0,
        }
    }
}

impl IngressBuilder {
    /// Sets the namespace that the ingress lives in.
    pub fn namespace<V: IntoValue>(&mut self, value: V) -> (next: &mut IngressBuilder)
        ensures
            next@ == (IngressBuilderView { namespace: Some(value.cell()), ..old(self)@ }),
            final(self)@ == final(next)@,
    {
        self.namespace = Some(value.into_value());
        self
    }

    /// Sets the services that the ingress leads to.
    pub fn services(&mut self, value: Vec<IngressServiceConfig>) -> (next: &mut IngressBuilder)
        ensures
            next@ == (IngressBuilderView { services: Some(services_view(value@)), ..old(self)@ }),
            final(self)@ == final(next)@,
    {
        self.services = Some(value);
        self
    }

    /// The ingress that the fields describe, were it to stand at `node`;
    /// fails where a required field is not set.
    fn finish(&self, node: Handle) -> (made: Result<Ingress, GraphError>)
        ensures
            match made {
                Ok(ingress) => self@.missing() is None && ingress@ == self@.finished(
                    node.index as int,
                ),
                Err(error) => self@.missing() is Some && error@ == (ErrorView::MissingField {
                    field: self@.missing()->0,
                }),
            },
    {
        let namespace = required(&self.namespace, "namespace")?;
        let services = match &self.services {
            Some(services) => copy_services(services),
            None => {
                return Err(GraphError::missing("services"));
            },
        };
        Ok(Ingress { node, name: self.stage.name().clone(), namespace, services })
    }

    /// Checks the fields and, where none is missing, declares the ingress in
    /// `stack`.
    ///
    /// The one build of a builder: whatever comes of it, the builder counts
    /// as built afterwards. A build that fails leaves the stack as it was.
    pub fn build(&mut self, stack: &mut Stack) -> (made: Result<Ingress, GraphError>)
        requires
            old(stack).wf(),
        ensures
            final(stack).wf(),
            final(self)@ == (IngressBuilderView {
                stage: StageView { built: true, ..old(self)@.stage },
                ..old(self)@
            }),
            match made {
                Ok(ingress) => {
                    &&& refusal(old(self)@.stage, old(self)@.missing(), old(stack)@) is None
                    &&& settled(old(stack)@, final(stack)@, old(self)@.stage)
                    &&& ingress@ == old(self)@.finished(old(stack)@.len() as int)
                    &&& final(stack)@ == ingress_tree(
                        old(stack)@,
                        old(self)@.stage.scope,
                        ingress@,
                    )
                },
                Err(error) => {
                    &&& refusal(old(self)@.stage, old(self)@.missing(), old(stack)@) == Some(error@)
                    &&& final(stack)@ == old(stack)@
                },
            },
    {
        self.stage.begin()?;
        let this = self.finish(Handle { index: stack.len() })?;
        let node = stack.create_child(self.stage.scope(), self.stage.name().as_str())?;
        stack.plant(
            node,
            "ingress",
            Role::Resource { kind: "kubernetes_ingress_v1".to_owned(), body: this.body() },
        );
        proof {
            assert(built_under(old(stack)@, stack@, old(self)@.stage.scope, old(self)@.stage.name));
            lemma_built_under_one_more(
                old(stack)@,
                stack@,
                old(self)@.stage.scope,
                old(self)@.stage.name,
            );
        }
        Ok(this)
    }
}

} // verus!
