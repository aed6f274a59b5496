//! Blocks that several constructs declare alike.

use crate::body::{Block, BlockView, Table, TableView, TextList, TextsView, TextView};
use crate::value::ValueCell;
use vstd::prelude::*;

verus! {

/// The `metadata` block of an object in a namespace.
pub open spec fn metadata(namespace: TextView, name: Seq<char>) -> BlockView {
    BlockView::empty().text("namespace"@, namespace).literal("name"@, name)
}

/// The `metadata` block of an object in a namespace.
pub fn metadata_block(namespace: &ValueCell<String>, name: &str) -> (block: Block)
    ensures
        block@ == metadata(namespace@, name@),
{
    Block::new().text("namespace", namespace.clone()).literal("name", name)
}

/// The `metadata` block of an object that belongs to no namespace.
pub open spec fn cluster_metadata(name: Seq<char>) -> BlockView {
    BlockView::empty().literal("name"@, name)
}

/// The `metadata` block of an object that belongs to no namespace.
pub fn cluster_metadata_block(name: &str) -> (block: Block)
    ensures
        block@ == cluster_metadata(name@),
{
    Block::new().literal("name", name)
}

/// The labels by which a workload and its service find one another.
pub open spec fn app_label(app: Seq<char>) -> TableView {
    TableView::empty().literal("app"@, app)
}

/// The labels by which a workload and its service find one another.
pub fn app_label_table(app: &str) -> (table: Table)
    ensures
        table@ == app_label(app@),
{
    Table::new().literal("app", app)
}

/// A `volume_mount` block.
pub open spec fn volume_mount(name: Seq<char>, mount_path: Seq<char>) -> BlockView {
    BlockView::empty().literal("name"@, name).literal("mount_path"@, mount_path)
}

/// A `volume_mount` block.
pub fn volume_mount_block(name: &str, mount_path: &str) -> (block: Block)
    ensures
        block@ == volume_mount(name@, mount_path@),
{
    Block::new().literal("name", name).literal("mount_path", mount_path)
}

/// An `env_from` block that takes the environment from a config map.
pub open spec fn env_from_config_map(name: TextView) -> BlockView {
    BlockView::empty().block("config_map_ref"@, BlockView::empty().text("name"@, name))
}

/// An `env_from` block that takes the environment from a config map.
pub fn env_from_config_map_block(name: &ValueCell<String>) -> (block: Block)
    ensures
        block@ == env_from_config_map(name@),
{
    Block::new().block("config_map_ref", Block::new().text("name", name.clone()))
}

/// An `env_from` block that takes the environment from a secret.
pub open spec fn env_from_secret(name: TextView) -> BlockView {
    BlockView::empty().block("secret_ref"@, BlockView::empty().text("name"@, name))
}

/// An `env_from` block that takes the environment from a secret.
pub fn env_from_secret_block(name: &ValueCell<String>) -> (block: Block)
    ensures
        block@ == env_from_secret(name@),
{
    Block::new().block("secret_ref", Block::new().text("name", name.clone()))
}

/// A named container port.
pub open spec fn named_port(name: Seq<char>, container_port: int) -> BlockView {
    BlockView::empty().literal("name"@, name).number("container_port"@, container_port)
}

/// A named container port.
pub fn named_port_block(name: &str, container_port: i64) -> (block: Block)
    ensures
        block@ == named_port(name@, container_port as int),
{
    Block::new().literal("name", name).number("container_port", container_port)
}

/// The pace of a probe: one success suffices, ten failures are borne, it
/// runs every twelve seconds and waits five.
pub open spec fn paced(probe: BlockView) -> BlockView {
    probe.number("success_threshold"@, 1).number("failure_threshold"@, 10).number(
        "period_seconds"@,
        12,
    ).number("timeout_seconds"@, 5)
}

/// The probe with its pace set.
pub fn paced_block(probe: Block) -> (block: Block)
    ensures
        block@ == paced(probe@),
{
    probe.number("success_threshold", 1).number("failure_threshold", 10).number(
        "period_seconds",
        12,
    ).number("timeout_seconds", 5)
}

/// The rule that binds a volume to the node of the given host name.
pub open spec fn on_node(node: TextView) -> BlockView {
    BlockView::empty().block(
        "required"@,
        BlockView::empty().block(
            "node_selector_term"@,
            BlockView::empty().block(
                "match_expressions"@,
                BlockView::empty().literal("key"@, "kubernetes.io/hostname"@).literal(
                    "operator"@,
                    "In"@,
                ).texts("values"@, TextsView::empty().cell(node)),
            ),
        ),
    )
}

/// The rule that binds a volume to the node of the given host name.
pub fn on_node_block(node: &ValueCell<String>) -> (block: Block)
    ensures
        block@ == on_node(node@),
{
    Block::new().block(
        "required",
        Block::new().block(
            "node_selector_term",
            Block::new().block(
                "match_expressions",
                Block::new().literal("key", "kubernetes.io/hostname").literal(
                    "operator",
                    "In",
                ).texts("values", TextList::new().cell(node.clone())),
            ),
        ),
    )
}

/// A persistent volume of the given size and class on one node, which one
/// writer at a time may mount and which is deleted when it is released.
/// `source` says where on the node the data lies.
pub open spec fn node_volume(
    name: Seq<char>,
    storage: TextView,
    storage_class: TextView,
    source: BlockView,
    node: TextView,
) -> BlockView {
    BlockView::empty().block("metadata"@, cluster_metadata(name + "-local-pv"@)).block(
        "spec"@,
        BlockView::empty().literal("volume_mode"@, "Filesystem"@).table(
            "capacity"@,
            TableView::empty().cell("storage"@, storage),
        ).texts("access_modes"@, TextsView::empty().literal("ReadWriteOnce"@)).literal(
            "persistent_volume_reclaim_policy"@,
            "Delete"@,
        ).text("storage_class_name"@, storage_class).block(
            "persistent_volume_source"@,
            source,
        ).block("node_affinity"@, on_node(node)),
    )
}

/// A persistent volume on one node; `source` says where on the node the
/// data lies.
pub fn node_volume_block(
    name: &str,
    storage: &ValueCell<String>,
    storage_class: &ValueCell<String>,
    source: Block,
    node: &ValueCell<String>,
) -> (block: Block)
    ensures
        block@ == node_volume(name@, storage@, storage_class@, source@, node@),
{
    let full_name = name.to_owned().concat("-local-pv");
    Block::new().block("metadata", cluster_metadata_block(full_name.as_str())).block(
        "spec",
        Block::new().literal("volume_mode", "Filesystem").table(
            "capacity",
            Table::new().cell("storage", storage.clone()),
        ).texts("access_modes", TextList::new().literal("ReadWriteOnce")).literal(
            "persistent_volume_reclaim_policy",
            "Delete",
        ).text("storage_class_name", storage_class.clone()).block(
            "persistent_volume_source",
            source,
        ).block("node_affinity", on_node_block(node)),
    )
}

/// A claim of the whole of one volume, for one writer at a time.
pub open spec fn volume_claim(
    name: Seq<char>,
    namespace: TextView,
    storage: TextView,
    storage_class: TextView,
    volume_name: TextView,
) -> BlockView {
    BlockView::empty().block("metadata"@, metadata(namespace, name + "-pvc"@)).block(
        "spec"@,
        BlockView::empty().text("volume_name"@, volume_name).text(
            "storage_class_name"@,
            storage_class,
        ).texts("access_modes"@, TextsView::empty().literal("ReadWriteOnce"@)).block(
            "resources"@,
            BlockView::empty().table("requests"@, TableView::empty().cell("storage"@, storage)),
        ),
    )
}

/// A claim of the whole of one volume, for one writer at a time.
pub fn volume_claim_block(
    name: &str,
    namespace: &ValueCell<String>,
    storage: &ValueCell<String>,
    storage_class: &ValueCell<String>,
    volume_name: &ValueCell<String>,
) -> (block: Block)
    ensures
        block@ == volume_claim(name@, namespace@, storage@, storage_class@, volume_name@),
{
    let full_name = name.to_owned().concat("-pvc");
    Block::new().block("metadata", metadata_block(namespace, full_name.as_str())).block(
        "spec",
        Block::new().text("volume_name", volume_name.clone()).text(
            "storage_class_name",
            storage_class.clone(),
        ).texts("access_modes", TextList::new().literal("ReadWriteOnce")).block(
            "resources",
            Block::new().table("requests", Table::new().cell("storage", storage.clone())),
        ),
    )
}

} // verus!
