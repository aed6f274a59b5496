//! Claims of volumes that lie on a disk of a node.

use crate::body::{Block, BlockView, TextView};
use crate::construct::parts::{volume_claim, volume_claim_block};
use crate::error::{ErrorView, GraphError};
use crate::stack::{Handle, Role, Stack};
use crate::stage::{
    first_unset, first_unset_from, held, refusal, required, settled, slot_view, Stage, StageView,
};
use crate::tree::{
    attribute_of, built_under, declared, grown, lemma_built_under_one_more, RoleView, TreeView,
};
use crate::value::{IntoValue, ValueCell};
use vstd::prelude::*;

verus! {

/// A claim of a volume that lies on a disk of one node.
pub struct LocalVolumeClaim {
    node: Handle,
    name: String,
    namespace: ValueCell<String>,
    storage: ValueCell<String>,
    storage_class: ValueCell<String>,
    volume_name: ValueCell<String>,
    claim_ref: ValueCell<String>,
}

/// The mathematical value of a [`LocalVolumeClaim`].
pub struct LocalVolumeClaimView {
    pub node: int,
    pub name: Seq<char>,
    pub namespace: TextView,
    pub storage: TextView,
    pub storage_class: TextView,
    pub volume_name: TextView,
    /// The name that the claim will have once it exists.
    pub claim_ref: TextView,
}

impl View for LocalVolumeClaim {
    type V = LocalVolumeClaimView;

    closed spec fn view(&self) -> LocalVolumeClaimView {
        LocalVolumeClaimView {
            node: self.node.index as int,
            name: self.name@,
            namespace: self.namespace@,
            storage: self.storage@,
            storage_class: self.storage_class@,
            volume_name: self.volume_name@,
            claim_ref: self.claim_ref@,
        }
    }
}

/// The declaration of the claim.
pub open spec fn local_volume_claim_body(claim: LocalVolumeClaimBuilderView) -> BlockView {
    volume_claim(
        claim.stage.name,
        claim.namespace->0,
        claim.storage->0,
        claim.storage_class->0,
        claim.volume_name->0,
    )
}

/// The tree after the claim that `claim` describes was built: the scope of
/// the claim, created last, and below it the persistent volume claim.
pub open spec fn local_volume_claim_tree(
    tree: TreeView,
    claim: LocalVolumeClaimBuilderView,
) -> TreeView {
    declared(
        grown(tree, claim.stage.scope, claim.stage.name, RoleView::Scope),
        tree.len() as int,
        "kubernetes_persistent_volume_claim"@,
        "claim"@,
        local_volume_claim_body(claim),
    )
}

impl LocalVolumeClaim {
    /// A builder for the claim `name` under `scope`, with no field set.
    pub fn create(scope: Handle, name: &str) -> (builder: LocalVolumeClaimBuilder)
        ensures
            builder@ == LocalVolumeClaimBuilderView::fresh(scope.index as int, name@),
    {
        LocalVolumeClaimBuilder {
            stage: Stage::new(scope, name),
            namespace: None,
            storage: None,
            storage_class: None,
            volume_name: None,
        }
    }

    /// The scope of the claim in its stack.
    pub fn node(&self) -> (node: Handle)
        ensures
            node.index as int == self@.node,
    {
        self.node
    }

    /// The name of the volume that is claimed, as it was handed to the
    /// builder.
    pub fn volume_name(&self) -> (cell: &ValueCell<String>)
        ensures
            cell@ == self@.volume_name,
    {
        &self.volume_name
    }

    /// The name that the claim will have once it exists. It is written
    /// once, while the claim is built, and never changes.
    pub fn claim(&self) -> (cell: &ValueCell<String>)
        ensures
            cell@ == self@.claim_ref,
    {
        &self.claim_ref
    }
}

/// The fields of a claim while they are being set.
pub struct LocalVolumeClaimBuilder {
    stage: Stage,
    namespace: Option<ValueCell<String>>,
    storage: Option<ValueCell<String>>,
    storage_class: Option<ValueCell<String>>,
    volume_name: Option<ValueCell<String>>,
}

/// The mathematical value of a [`LocalVolumeClaimBuilder`].
pub struct LocalVolumeClaimBuilderView {
    pub stage: StageView,
    pub namespace: Option<TextView>,
    pub storage: Option<TextView>,
    pub storage_class: Option<TextView>,
    pub volume_name: Option<TextView>,
}

impl View for LocalVolumeClaimBuilder {
    type V = LocalVolumeClaimBuilderView;

    closed spec fn view(&self) -> LocalVolumeClaimBuilderView {
        LocalVolumeClaimBuilderView {
            stage: self.stage@,
            namespace: slot_view(self.namespace),
            storage: slot_view(self.storage),
            storage_class: slot_view(self.storage_class),
            volume_name: slot_view(self.volume_name),
        }
    }
}

impl LocalVolumeClaimBuilderView {
    /// The builder for `name` under `scope` with no field set.
    pub open spec fn fresh(scope: int, name: Seq<char>) -> LocalVolumeClaimBuilderView {
        LocalVolumeClaimBuilderView {
            stage: StageView { scope, name, built: false },
            namespace: None,
            storage: None,
            storage_class: None,
            volume_name: None,
        }
    }

    /// The required fields, in the order in which they are checked, each
    /// with whether it is set.
    pub open spec fn required(self) -> Seq<(Seq<char>, bool)> {
        seq![
            ("namespace"@, self.namespace is Some),
            ("storage"@, self.storage is Some),
            ("storage_class"@, self.storage_class is Some),
            ("volume_name"@, self.volume_name is Some),
        ]
    }

    /// The first required field that is not set, if there is one.
    pub open spec fn missing(self) -> Option<Seq<char>> {
        if self.namespace is None {
            Some("namespace"@)
        } else if self.storage is None {
            Some("storage"@)
        } else if self.storage_class is None {
            Some("storage_class"@)
        } else if self.volume_name is None {
            Some("volume_name"@)
        } else {
            None
        }
    }

    /// The field that is named as missing is the first of the required
    /// fields that is not set.
    pub proof fn lemma_missing_is_first_unset(self)
        ensures
            self.missing() == first_unset(self.required()),
    {
        reveal_with_fuel(first_unset_from, 5);
    }

    /// The claim that the builder describes once every field is set, built
    /// as node number `node` below the scope whose path is `above`.
    pub open spec fn finished(self, node: int, above: Seq<Seq<char>>) -> LocalVolumeClaimView {
        LocalVolumeClaimView {
            node,
            name: self.stage.name,
            namespace: self.namespace->0,
            storage: self.storage->0,
            storage_class: self.storage_class->0,
            volume_name: self.volume_name->0,
            claim_ref: attribute_of(
                above.push(self.stage.name),
                "kubernetes_persistent_volume_claim"@,
                "claim"@,
                "metadata.0.name"@,
            ),
        }
    }
}

impl LocalVolumeClaimBuilder {
    /// Sets the namespace that the claim lives in.
    pub fn namespace<V: IntoValue>(&mut self, value: V) -> (next: &mut LocalVolumeClaimBuilder)
        ensures
            next@ == (LocalVolumeClaimBuilderView { namespace: Some(value.cell()), ..old(self)@ }),
            final(self)@ == final(next)@,
    {
        self.namespace = Some(value.into_value());
        self
    }

    /// Sets the size that is claimed.
    pub fn storage<V: IntoValue>(&mut self, value: V) -> (next: &mut LocalVolumeClaimBuilder)
        ensures
            next@ == (LocalVolumeClaimBuilderView { storage: Some(value.cell()), ..old(self)@ }),
            final(self)@ == final(next)@,
    {
        self.storage = Some(value.into_value());
        self
    }

    /// Sets the storage class of the claim.
    pub fn storage_class<V: IntoValue>(&mut self, value: V) -> (next: &mut LocalVolumeClaimBuilder)
        ensures
            next@ == (LocalVolumeClaimBuilderView {
                storage_class: Some(value.cell()),
                ..old(self)@
            }),
            final(self)@ == final(next)@,
    {
        self.storage_class = Some(value.into_value());
        self
    }

    /// Sets the name of the volume that is claimed.
    pub fn volume_name<V: IntoValue>(&mut self, value: V) -> (next: &mut LocalVolumeClaimBuilder)
        ensures
            next@ == (LocalVolumeClaimBuilderView {
                volume_name: Some(value.cell()),
                ..old(self)@
            }),
            final(self)@ == final(next)@,
    {
        self.volume_name = Some(value.into_value());
        self
    }

    /// The declaration of the claim; fails where a field is not set.
    fn finish(&self) -> (made: Result<Block, GraphError>)
        ensures
            match made {
                Ok(body) => self@.missing() is None && body@ == local_volume_claim_body(self@),
                Err(error) => self@.missing() is Some && error@ == (ErrorView::MissingField {
                    field: self@.missing()->0,
                }),
            },
    {
        let namespace = required(&self.namespace, "namespace")?;
        let storage = required(&self.storage, "storage")?;
        let storage_class = required(&self.storage_class, "storage_class")?;
        let volume_name = required(&self.volume_name, "volume_name")?;
        Ok(
            volume_claim_block(
                self.stage.name().as_str(),
                &namespace,
                &storage,
                &storage_class,
                &volume_name,
            ),
        )
    }

    /// Checks the fields and, where none is missing, declares the claim in
    /// `stack`.
    ///
    /// The one build of a builder: whatever comes of it, the builder counts
    /// as built afterwards. A build that fails leaves the stack as it was.
    pub fn build(&mut self, stack: &mut Stack) -> (made: Result<LocalVolumeClaim, GraphError>)
        requires
            old(stack).wf(),
        ensures
            final(stack).wf(),
            final(self)@ == (LocalVolumeClaimBuilderView {
                stage: StageView { built: true, ..old(self)@.stage },
                ..old(self)@
            }),
            match made {
                Ok(claim) => {
                    &&& refusal(old(self)@.stage, old(self)@.missing(), old(stack)@) is None
                    &&& settled(old(stack)@, final(stack)@, old(self)@.stage)
                    &&& claim@ == old(self)@.finished(
                        old(stack)@.len() as int,
                        old(stack)@[old(self)@.stage.scope].path,
                    )
                    &&& final(stack)@ == local_volume_claim_tree(old(stack)@, old(self)@)
                },
                Err(error) => {
                    &&& refusal(old(self)@.stage, old(self)@.missing(), old(stack)@) == Some(error@)
                    &&& final(stack)@ == old(stack)@
                },
            },
    {
        self.stage.begin()?;
        let body = self.finish()?;
        let node = stack.create_child(self.stage.scope(), self.stage.name().as_str())?;
        let claim = stack.plant(
            node,
            "claim",
            Role::Resource { kind: "kubernetes_persistent_volume_claim".to_owned(), body },
        );
        proof {
            assert(built_under(old(stack)@, stack@, old(self)@.stage.scope, old(self)@.stage.name));
            lemma_built_under_one_more(
                old(stack)@,
                stack@,
                old(self)@.stage.scope,
                old(self)@.stage.name,
            );
        }
        let claim_ref: ValueCell<String> = stack.refer(claim, "metadata.0.name");
        Ok(
            LocalVolumeClaim {
                node,
                name: self.stage.name().clone(),
                namespace: held(&self.namespace),
                storage: held(&self.storage),
                storage_class: held(&self.storage_class),
                volume_name: held(&self.volume_name),
                claim_ref,
            },
        )
    }
}

} // verus!
