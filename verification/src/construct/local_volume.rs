//! Volumes that lie on a disk of a node.

use crate::body::{Block, BlockView, TextView};
use crate::construct::local_volume_claim::{
    LocalVolumeClaim, LocalVolumeClaimBuilder, LocalVolumeClaimBuilderView,
};
use crate::construct::parts::{node_volume, node_volume_block};
use crate::error::{ErrorView, GraphError};
use crate::stack::{Handle, Role, Stack};
use crate::stage::{
    first_unset, first_unset_from, held, refusal, required, settled, slot_view, Stage, StageView,
};
use crate::tree::{
    attribute_of, built_under, declared, grown, lemma_built_under_one_more, RoleView, TreeView,
};
use crate::value::{IntoValue, ValueCell};
use vstd::prelude::*;

verus! {

/// A volume that lies on a disk of one node.
pub struct LocalVolume {
    node: Handle,
    name: String,
    storage: ValueCell<String>,
    storage_class: ValueCell<String>,
    mount_path: ValueCell<String>,
    host: ValueCell<String>,
    volume_ref: ValueCell<String>,
}

/// The mathematical value of a [`LocalVolume`].
pub struct LocalVolumeView {
    pub node: int,
    pub name: Seq<char>,
    pub storage: TextView,
    pub storage_class: TextView,
    pub mount_path: TextView,
    pub host: TextView,
    /// The name that the volume will have once it exists.
    pub volume_ref: TextView,
}

impl View for LocalVolume {
    type V = LocalVolumeView;

    closed spec fn view(&self) -> LocalVolumeView {
        LocalVolumeView {
            node: self.node.index as int,
            name: self.name@,
            storage: self.storage@,
            storage_class: self.storage_class@,
            mount_path: self.mount_path@,
            host: self.host@,
            volume_ref: self.volume_ref@,
        }
    }
}

/// Where the data lies: on a disk that is mounted at `mount_path`.
pub open spec fn local_volume_source(mount_path: TextView) -> BlockView {
    BlockView::empty().block("local"@, BlockView::empty().text("path"@, mount_path))
}

/// The declaration of the volume.
pub open spec fn local_volume_body(volume: LocalVolumeBuilderView) -> BlockView {
    node_volume(
        volume.stage.name,
        volume.storage->0,
        volume.storage_class->0,
        local_volume_source(volume.mount_path->0),
        volume.node->0,
    )
}

/// The tree after the volume that `volume` describes was built: the scope
/// of the volume, created last, and below it the persistent volume.
pub open spec fn local_volume_tree(tree: TreeView, volume: LocalVolumeBuilderView) -> TreeView {
    declared(
        grown(tree, volume.stage.scope, volume.stage.name, RoleView::Scope),
        tree.len() as int,
        "kubernetes_persistent_volume"@,
        "pv-local"@,
        local_volume_body(volume),
    )
}

impl LocalVolume {
    /// A builder for the volume `name` under `scope`, with no field set.
    pub fn create(scope: Handle, name: &str) -> (builder: LocalVolumeBuilder)
        ensures
            builder@ == LocalVolumeBuilderView::fresh(scope.index as int, name@),
    {
        LocalVolumeBuilder {
            stage: Stage::new(scope, name),
            storage: None,
            storage_class: None,
            mount_path: None,
            node: None,
        }
    }

    /// The scope of the volume in its stack.
    pub fn node(&self) -> (node: Handle)
        ensures
            node.index as int == self@.node,
    {
        self.node
    }

    /// The name that the volume will have once it exists. It is written
    /// once, while the volume is built, and never changes.
    pub fn volume_ref(&self) -> (cell: &ValueCell<String>)
        ensures
            cell@ == self@.volume_ref,
    {
        &self.volume_ref
    }

    /// A builder for the claim `name` of this volume, below the scope of the
    /// volume. The name of the volume is set already.
    pub fn claim(&self, name: &str) -> (builder: LocalVolumeClaimBuilder)
        ensures
            builder@ == (LocalVolumeClaimBuilderView {
                volume_name: Some(self@.volume_ref),
                ..LocalVolumeClaimBuilderView::fresh(self@.node, name@)
            }),
    {
        let mut builder = LocalVolumeClaim::create(self.node, name);
        builder.volume_name(&self.volume_ref);
        builder
    }
}

/// The fields of a volume while they are being set.
pub struct LocalVolumeBuilder {
    stage: Stage,
    storage: Option<ValueCell<String>>,
    storage_class: Option<ValueCell<String>>,
    mount_path: Option<ValueCell<String>>,
    node: Option<ValueCell<String>>,
}

/// The mathematical value of a [`LocalVolumeBuilder`].
pub struct LocalVolumeBuilderView {
    pub stage: StageView,
    pub storage: Option<TextView>,
    pub storage_class: Option<TextView>,
    pub mount_path: Option<TextView>,
    pub node: Option<TextView>,
}

impl View for LocalVolumeBuilder {
    type V = LocalVolumeBuilderView;

    closed spec fn view(&self) -> LocalVolumeBuilderView {
        LocalVolumeBuilderView {
            stage: self.stage@,
            storage: slot_view(self.storage),
            storage_class: slot_view(self.storage_class),
            mount_path: slot_view(self.mount_path),
            node: slot_view(self.node),
        }
    }
}

impl LocalVolumeBuilderView {
    /// The builder for `name` under `scope` with no field set.
    pub open spec fn fresh(scope: int, name: Seq<char>) -> LocalVolumeBuilderView {
        LocalVolumeBuilderView {
            stage: StageView { scope, name, built: false },
            storage: None,
            storage_class: None,
            mount_path: None,
            node: None,
        }
    }

    /// The required fields, in the order in which they are checked, each
    /// with whether it is set.
    pub open spec fn required(self) -> Seq<(Seq<char>, bool)> {
        seq![
            ("storage"@, self.storage is Some),
            ("storage_class"@, self.storage_class is Some),
            ("mount_path"@, self.mount_path is Some),
            ("node"@, self.node is Some),
        ]
    }

    /// The first required field that is not set, if there is one.
    pub open spec fn missing(self) -> Option<Seq<char>> {
        if self.storage is None {
            Some("storage"@)
        } else if self.storage_class is None {
            Some("storage_class"@)
        } else if self.mount_path is None {
            Some("mount_path"@)
        } else if self.node is None {
            Some("node"@)
        } else {
            None
        }
    }

    /// The field that is named as missing is the first of the required
    /// fields that is not set.
    pub proof fn lemma_missing_is_first_unset(self)
        ensures
            self.missing() == first_unset(self.required()),
    {
        reveal_with_fuel(first_unset_from, 5);
    }

    /// The volume that the builder describes once every field is set, built
    /// as node number `node` below the scope whose path is `above`.
    pub open spec fn finished(self, node: int, above: Seq<Seq<char>>) -> LocalVolumeView {
        LocalVolumeView {
            node,
            name: self.stage.name,
            storage: self.storage->0,
            storage_class: self.storage_class->0,
            mount_path: self.mount_path->0,
            host: self.node->0,
            volume_ref: attribute_of(
                above.push(self.stage.name),
                "kubernetes_persistent_volume"@,
                "pv-local"@,
                "metadata.0.name"@,
            ),
        }
    }
}

impl LocalVolumeBuilder {
    /// Sets the size of the volume.
    pub fn storage<V: IntoValue>(&mut self, value: V) -> (next: &mut LocalVolumeBuilder)
        ensures
            next@ == (LocalVolumeBuilderView { storage: Some(value.cell()), ..old(self)@ }),
            final(self)@ == final(next)@,
    {
        self.storage = Some(value.into_value());
        self
    }

    /// Sets the storage class of the volume.
    pub fn storage_class<V: IntoValue>(&mut self, value: V) -> (next: &mut LocalVolumeBuilder)
        ensures
            next@ == (LocalVolumeBuilderView { storage_class: Some(value.cell()), ..old(self)@ }),
            final(self)@ == final(next)@,
    {
        self.storage_class = Some(value.into_value());
        self
    }

    /// Sets where on the node the data lies.
    pub fn mount_path<V: IntoValue>(&mut self, value: V) -> (next: &mut LocalVolumeBuilder)
        ensures
            next@ == (LocalVolumeBuilderView { mount_path: Some(value.cell()), ..old(self)@ }),
            final(self)@ == final(next)@,
    {
        self.mount_path = Some(value.into_value());
        self
    }

    /// Sets the host name of the node that holds the volume.
    pub fn node<V: IntoValue>(&mut self, value: V) -> (next: &mut LocalVolumeBuilder)
        ensures
            next@ == (LocalVolumeBuilderView { node: Some(value.cell()), ..old(self)@ }),
            final(self)@ == final(next)@,
    {
        self.node = Some(value.into_value());
        self
    }

    /// The declaration of the volume; fails where a field is not set.
    fn finish(&self) -> (made: Result<Block, GraphError>)
        ensures
            match made {
                Ok(body) => self@.missing() is None && body@ == local_volume_body(self@),
                Err(error) => self@.missing() is Some && error@ == (ErrorView::MissingField {
                    field: self@.missing()->0,
                }),
            },
    {
        let storage = required(&self.storage, "storage")?;
        let storage_class = required(&self.storage_class, "storage_class")?;
        let mount_path = required(&self.mount_path, "mount_path")?;
        let node = required(&self.node, "node")?;
        let source = Block::new().block("local", Block::new().text("path", mount_path));
        Ok(
            node_volume_block(
                self.stage.name().as_str(),
                &storage,
                &storage_class,
                source,
                &node,
            ),
        )
    }

    /// Checks the fields and, where none is missing, declares the volume in
    /// `stack`.
    ///
    /// The one build of a builder: whatever comes of it, the builder counts
    /// as built afterwards. A build that fails leaves the stack as it was.
    pub fn build(&mut self, stack: &mut Stack) -> (made: Result<LocalVolume, GraphError>)
        requires
            old(stack).wf(),
        ensures
            final(stack).wf(),
            final(self)@ == (LocalVolumeBuilderView {
                stage: StageView { built: true, ..old(self)@.stage },
                ..old(self)@
            }),
            match made {
                Ok(volume) => {
                    &&& refusal(old(self)@.stage, old(self)@.missing(), old(stack)@) is None
                    &&& settled(old(stack)@, final(stack)@, old(self)@.stage)
                    &&& volume@ == old(self)@.finished(
                        old(stack)@.len() as int,
                        old(stack)@[old(self)@.stage.scope].path,
                    )
                    &&& final(stack)@ == local_volume_tree(old(stack)@, old(self)@)
                },
                Err(error) => {
                    &&& refusal(old(self)@.stage, old(self)@.missing(), old(stack)@) == Some(error@)
                    &&& final(stack)@ == old(stack)@
                },
            },
    {
        self.stage.begin()?;
        let body = self.finish()?;
        let node = stack.create_child(self.stage.scope(), self.stage.name().as_str())?;
        let volume = stack.plant(
            node,
            "pv-local",
            Role::Resource { kind: "kubernetes_persistent_volume".to_owned(), body },
        );
        proof {
            assert(built_under(old(stack)@, stack@, old(self)@.stage.scope, old(self)@.stage.name));
            lemma_built_under_one_more(
                old(stack)@,
                stack@,
                old(self)@.stage.scope,
                old(self)@.stage.name,
            );
        }
        let volume_ref: ValueCell<String> = stack.refer(volume, "metadata.0.name");
        Ok(
            LocalVolume {
                node,
                name: self.stage.name().clone(),
                storage: held(&self.storage),
                storage_class: held(&self.storage_class),
                mount_path: held(&self.mount_path),
                host: held(&self.node),
                volume_ref,
            },
        )
    }
}

} // verus!
