//! The deployment of a Gitea server with its database, its data and its
//! ingress.

use crate::body::{Block, BlockView, TextView};
use crate::config::{Config, ConfigView, Scripts, ScriptsView};
use crate::construct::gitea::{gitea_tree, Gitea, GiteaView};
use crate::construct::ingress::{
    ingress_tree, services_view, Ingress, IngressServiceConfig, IngressView,
};
use crate::construct::local_dir_volume::{
    local_dir_volume_tree, LocalDirVolume, LocalDirVolumeBuilderView, LocalDirVolumeView,
};
use crate::construct::local_dir_volume_claim::{
    local_dir_volume_claim_tree, LocalDirVolumeClaim, LocalDirVolumeClaimBuilderView,
};
use crate::construct::postgres::{postgres_tree, Postgres, PostgresView};
use crate::stack::{Role, Stack};
use crate::stage::StageView;
use crate::tree::{
    attribute_of, declared, grown, has_child, one_more_child, planted, scopeless, RoleView,
    TreeView,
};
use crate::value::{CellView, ClassView, ValueCell};
use vstd::prelude::*;

verus! {

/// The configuration of the provider: the cluster is found by the
/// configuration of the user.
pub open spec fn provider_body() -> BlockView {
    BlockView::empty().literal("config_path"@, "~/.kube/config"@)
}

/// The declaration of the namespace that the deployment lives in.
pub open spec fn namespace_body() -> BlockView {
    BlockView::empty().block("metadata"@, BlockView::empty().literal("name"@, "gitserver"@))
}

/// The declaration of the storage class of volumes that lie on a node and
/// are bound when they are first used.
pub open spec fn storage_class_body() -> BlockView {
    BlockView::empty().block(
        "metadata"@,
        BlockView::empty().literal("name"@, "local-storage"@),
    ).literal("storage_provisioner"@, "kubernetes.io/no-provisioner"@).literal(
        "volume_binding_mode"@,
        "WaitForFirstConsumer"@,
    )
}

/// What every deployment starts with: the stack `gitserver` and, below its
/// root, the provider, the namespace and the storage class.
pub open spec fn foundation() -> TreeView {
    declared(
        declared(
            grown(
                planted("gitserver"@),
                0,
                "registry.terraform.io/hashicorp/kubernetes"@,
                RoleView::Provider { version: "=2.19.0"@, body: provider_body() },
            ),
            0,
            "kubernetes_namespace"@,
            "gitserver"@,
            namespace_body(),
        ),
        0,
        "kubernetes_storage_class"@,
        "local_storage"@,
        storage_class_body(),
    )
}

/// The name that the namespace will have.
pub open spec fn namespace_name() -> TextView {
    attribute_of(seq!["gitserver"@], "kubernetes_namespace"@, "gitserver"@, "metadata.0.name"@)
}

/// The name that the storage class will have.
pub open spec fn storage_class_name() -> TextView {
    attribute_of(
        seq!["gitserver"@],
        "kubernetes_storage_class"@,
        "local_storage"@,
        "metadata.0.name"@,
    )
}

/// The fields of a volume of ten gibibytes in the directory `mount_path` of
/// the node `host`.
pub open spec fn data_volume(
    name: Seq<char>,
    mount_path: Seq<char>,
    host: Seq<char>,
) -> LocalDirVolumeBuilderView {
    LocalDirVolumeBuilderView {
        stage: StageView { scope: 0, name, built: false },
        storage: Some(CellView::Literal("10Gi"@)),
        storage_class: Some(storage_class_name()),
        mount_path: Some(CellView::Literal(mount_path)),
        node: Some(CellView::Literal(host)),
    }
}

/// The fields of the claim `claim` of the volume `volume`, in the namespace
/// of the deployment.
pub open spec fn data_claim(
    volume: LocalDirVolumeView,
    claim: Seq<char>,
) -> LocalDirVolumeClaimBuilderView {
    LocalDirVolumeClaimBuilderView {
        stage: StageView { scope: volume.node, name: claim, built: false },
        namespace: Some(namespace_name()),
        storage: Some(volume.storage),
        storage_class: Some(volume.storage_class),
        volume_name: Some(volume.volume_ref),
    }
}

/// The tree after a volume and its claim were built under the root.
pub open spec fn with_data(
    tree: TreeView,
    name: Seq<char>,
    claim: Seq<char>,
    mount_path: Seq<char>,
    host: Seq<char>,
) -> TreeView {
    let volume = data_volume(name, mount_path, host);
    local_dir_volume_claim_tree(
        local_dir_volume_tree(tree, volume),
        data_claim(volume.finished(tree.len() as int, tree[0].path), claim),
    )
}

/// The name that the claim `claim` of the volume `name` will have.
pub open spec fn claim_name(name: Seq<char>, claim: Seq<char>) -> TextView {
    attribute_of(
        seq!["gitserver"@, name, claim],
        "kubernetes_persistent_volume_claim"@,
        "claim"@,
        "metadata.0.name"@,
    )
}

/// The database of the deployment.
pub open spec fn database(node: int) -> PostgresView {
    PostgresView {
        node,
        name: "giteadb"@,
        namespace: namespace_name(),
        db_name: CellView::Literal("gitea"@),
        user: CellView::Literal("gitea"@),
        password: CellView::Literal("gitea"@),
        volume_claim: claim_name("gitserver-pgdata"@, "pgdata"@),
    }
}

/// The Gitea server of the deployment.
pub open spec fn server(node: int, config: ConfigView, scripts: ScriptsView) -> GiteaView {
    GiteaView {
        node,
        name: "gitea"@,
        namespace: namespace_name(),
        path: "/"@,
        domain: CellView::Literal(config.server.domain),
        cache_host: CellView::Literal("localhost"@),
        db_host: CellView::Literal("postgres-giteadb.gitserver:5432"@),
        db_name: CellView::Literal("gitea"@),
        db_user: CellView::Literal("gitea"@),
        db_password: CellView::Literal("gitea"@),
        root_user: CellView::Literal(config.root.user),
        root_passwd: CellView::Literal(config.root.passwd),
        root_email: CellView::Literal(config.root.email),
        volume_claim: claim_name("gitserver-giteadata"@, "giteadata"@),
        init_script: scripts.init,
        migrate_script: scripts.migrate,
    }
}

/// The ingress of the deployment, which leads to the Gitea server `gitea`.
pub open spec fn entrance(node: int, gitea: GiteaView) -> IngressView {
    IngressView {
        node,
        name: "gitserver"@,
        namespace: namespace_name(),
        services: seq![gitea.ingress()],
    }
}

/// The whole deployment: the foundation, then the volume and the claim of
/// the database, the volume and the claim of the Gitea server, the
/// database, the Gitea server and the ingress that leads to it.
pub open spec fn deployment(config: ConfigView, scripts: ScriptsView) -> TreeView {
    let with_database_data = with_data(
        foundation(),
        "gitserver-pgdata"@,
        "pgdata"@,
        "/mnt/gitea-pgdata"@,
        config.server.node,
    );
    let with_server_data = with_data(
        with_database_data,
        "gitserver-giteadata"@,
        "giteadata"@,
        "/mnt/gitea-data"@,
        config.server.node,
    );
    let with_database = postgres_tree(
        with_server_data,
        0,
        database(with_server_data.len() as int),
    );
    let gitea = server(with_database.len() as int, config, scripts);
    let with_server = gitea_tree(with_database, 0, gitea);
    ingress_tree(with_server, 0, entrance(with_server.len() as int, gitea))
}

/// The start of a deployment, with the cells that name the namespace and
/// the storage class.
fn found() -> (made: (Stack, ValueCell<String>, ValueCell<String>))
    ensures
        made.0.wf(),
        made.0@ == foundation(),
        made.1@ == namespace_name(),
        made.2@ == storage_class_name(),
        scopeless(foundation(), 0),
{
    let mut stack = Stack::new("gitserver");
    let root = stack.root();
    proof {
        reveal_strlit("kubernetes_namespace");
        reveal_strlit("kubernetes_storage_class");
        assert("kubernetes_namespace"@.len() == 20);
        assert("kubernetes_storage_class"@.len() == 24);
    }
    stack.plant(
        root,
        "registry.terraform.io/hashicorp/kubernetes",
        Role::Provider {
            version: "=2.19.0".to_owned(),
            body: Block::new().literal("config_path", "~/.kube/config"),
        },
    );
    let namespace_node = stack.plant(
        root,
        "gitserver",
        Role::Resource {
            kind: "kubernetes_namespace".to_owned(),
            body: Block::new().block("metadata", Block::new().literal("name", "gitserver")),
        },
    );
    let namespace: ValueCell<String> = stack.refer(namespace_node, "metadata.0.name");
    let class_node = stack.plant(
        root,
        "local_storage",
        Role::Resource {
            kind: "kubernetes_storage_class".to_owned(),
            body: Block::new().block(
                "metadata",
                Block::new().literal("name", "local-storage"),
            ).literal("storage_provisioner", "kubernetes.io/no-provisioner").literal(
                "volume_binding_mode",
                "WaitForFirstConsumer",
            ),
        },
    );
    let class: ValueCell<String> = stack.refer(class_node, "metadata.0.name");
    (stack, namespace, class)
}

/// Builds a volume of ten gibibytes in the directory `mount_path` of the
/// node `host`, and its claim `claim`, under the root.
fn add_data(
    stack: &mut Stack,
    name: &str,
    claim: &str,
    mount_path: &str,
    host: &String,
    namespace: &ValueCell<String>,
    class: &ValueCell<String>,
) -> (made: LocalDirVolumeClaim)
    requires
        old(stack).wf(),
        old(stack)@[0].path == seq!["gitserver"@],
        !has_child(old(stack)@, 0, ClassView::Scope, name@),
        namespace@ == namespace_name(),
        class@ == storage_class_name(),
    ensures
        final(stack).wf(),
        final(stack)@ == with_data(old(stack)@, name@, claim@, mount_path@, host@),
        final(stack)@[0].path == seq!["gitserver"@],
        one_more_child(old(stack)@, final(stack)@, 0, ClassView::Scope, name@),
        made@.claim_ref == claim_name(name@, claim@),
{
    let root = stack.root();
    let mut volume_builder = LocalDirVolume::create(root, name);
    volume_builder.storage("10Gi").storage_class(class).mount_path(mount_path).node(host);
    let volume = volume_builder.build(stack).unwrap();
    let mut claim_builder = volume.claim(claim);
    claim_builder.namespace(namespace);
    let made = claim_builder.build(stack).unwrap();
    proof {
        assert(seq!["gitserver"@].push(name@).push(claim@) =~= seq!["gitserver"@, name@, claim@]);
    }
    made
}

/// Builds the whole deployment that `config` describes: the foundation,
/// the data of the database and of the Gitea server, the database, the
/// Gitea server and the ingress that leads to it.
pub fn init(config: Config, scripts: Scripts) -> (stack: Stack)
    ensures
        stack.wf(),
        stack@ == deployment(config@, scripts@),
{
    let (mut stack, namespace, class) = found();
    let root = stack.root();
    proof {
        reveal_strlit("gitserver-pgdata");
        reveal_strlit("gitserver-giteadata");
        reveal_strlit("giteadb");
        reveal_strlit("gitea");
        reveal_strlit("gitserver");
        assert("gitserver-pgdata"@.len() == 16);
        assert("gitserver-giteadata"@.len() == 19);
        assert("giteadb"@.len() == 7);
        assert("gitea"@.len() == 5);
        assert("gitserver"@.len() == 9);
    }
    let pgdata = add_data(
        &mut stack,
        "gitserver-pgdata",
        "pgdata",
        "/mnt/gitea-pgdata",
        &config.server.node,
        &namespace,
        &class,
    );
    let giteadata = add_data(
        &mut stack,
        "gitserver-giteadata",
        "giteadata",
        "/mnt/gitea-data",
        &config.server.node,
        &namespace,
        &class,
    );
    let mut database_builder = Postgres::create(root, "giteadb");
    database_builder.namespace(&namespace).volume_claim(pgdata.claim()).db_name("gitea").user(
        "gitea",
    ).password("gitea");
    database_builder.build(&mut stack).unwrap();
    let mut server_builder = Gitea::create(root, "gitea");
    server_builder.namespace(&namespace).domain(&config.server.domain).path("/").db_host(
        "postgres-giteadb.gitserver:5432",
    ).db_name("gitea").db_user("gitea").db_password("gitea").root_user(
        &config.root.user,
    ).root_passwd(&config.root.passwd).root_email(&config.root.email).volume_claim(
        giteadata.claim(),
    ).init_script(scripts.init.as_str()).migrate_script(scripts.migrate.as_str());
    let gitea = server_builder.build(&mut stack).unwrap();
    let mut services: Vec<IngressServiceConfig> = Vec::new();
    services.push(gitea.ingress());
    assert(services_view(services@) =~= seq![gitea@.ingress()]);
    let mut entrance_builder = Ingress::create(root, "gitserver");
    entrance_builder.namespace(&namespace).services(services);
    entrance_builder.build(&mut stack).unwrap();
    stack
}

} // verus!
