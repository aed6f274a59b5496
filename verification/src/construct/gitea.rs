//! The Gitea server.

use crate::body::{Block, BlockView, Table, TableView, TextList, TextsView, TextView};
use crate::construct::ingress::{IngressServiceConfig, ServiceConfigView};
use crate::construct::parts::{
    app_label, app_label_table, env_from_config_map, env_from_config_map_block, env_from_secret,
    env_from_secret_block, metadata, metadata_block, named_port, named_port_block, paced,
    paced_block, volume_mount, volume_mount_block,
};
use crate::error::{ErrorView, GraphError};
use crate::stack::{Handle, Role, Stack};
use crate::stage::{
    defaulted, defaulted_text, first_unset, first_unset_from, or_literal, or_text, refusal,
    required, settled, slot_view, text_view, Stage, StageView,
};
use crate::tree::{
    attribute_of, built_under, childless, declared, grown, is_scope, lemma_built_under_one_more,
    scopeless, well_formed, RoleView, TreeView,
};
use crate::value::{IntoValue, ValueCell};
use vstd::prelude::*;

verus! {

/// A Gitea server: its service, its settings and the workload that runs it.
pub struct Gitea {
    node: Handle,
    name: String,
    namespace: ValueCell<String>,
    path: String,
    domain: ValueCell<String>,
    cache_host: ValueCell<String>,
    db_host: ValueCell<String>,
    db_name: ValueCell<String>,
    db_user: ValueCell<String>,
    db_password: ValueCell<String>,
    root_user: ValueCell<String>,
    root_passwd: ValueCell<String>,
    root_email: ValueCell<String>,
    volume_claim: ValueCell<String>,
    init_script: String,
    migrate_script: String,
}

/// The mathematical value of a [`Gitea`].
pub struct GiteaView {
    pub node: int,
    pub name: Seq<char>,
    pub namespace: TextView,
    pub path: Seq<char>,
    pub domain: TextView,
    pub cache_host: TextView,
    pub db_host: TextView,
    pub db_name: TextView,
    pub db_user: TextView,
    pub db_password: TextView,
    pub root_user: TextView,
    pub root_passwd: TextView,
    pub root_email: TextView,
    pub volume_claim: TextView,
    pub init_script: Seq<char>,
    pub migrate_script: Seq<char>,
}

impl View for Gitea {
    type V = GiteaView;

    closed spec fn view(&self) -> GiteaView {
        GiteaView {
            node: self.node.index as int,
            name: self.name@,
            namespace: self.namespace@,
            path: self.path@,
            domain: self.domain@,
            cache_host: self.cache_host@,
            db_host: self.db_host@,
            db_name: self.db_name@,
            db_user: self.db_user@,
            db_password: self.db_password@,
            root_user: self.root_user@,
            root_passwd: self.root_passwd@,
            root_email: self.root_email@,
            volume_claim: self.volume_claim@,
            init_script: self.init_script@,
            migrate_script: self.migrate_script@,
        }
    }
}

/// The image that every container of the server runs.
pub open spec fn gitea_image() -> Seq<char> {
    "gitea/gitea:1.19.0-rootless"@
}

/// The service that exposes the web port of the server.
pub open spec fn gitea_service(gitea: GiteaView) -> BlockView {
    BlockView::empty().block(
        "metadata"@,
        metadata(gitea.namespace, gitea.name + "-service"@),
    ).block(
        "spec"@,
        BlockView::empty().table("selector"@, app_label("gitea-"@ + gitea.name)).block(
            "port"@,
            BlockView::empty().literal("name"@, "web"@).number("port"@, 3000),
        ),
    )
}

/// The secret that holds the account of the first administrator.
pub open spec fn gitea_root_account(gitea: GiteaView) -> BlockView {
    BlockView::empty().block("metadata"@, metadata(gitea.namespace, gitea.name)).table(
        "data"@,
        TableView::empty().literal("INSTALL_LOCK"@, "true"@).cell(
            "ROOT_USER"@,
            gitea.root_user,
        ).cell("ROOT_PASSWD"@, gitea.root_passwd).cell("ROOT_EMAIL"@, gitea.root_email),
    )
}

/// The settings of the server, as the environment of its containers.
pub open spec fn gitea_settings(gitea: GiteaView) -> BlockView {
    BlockView::empty().block("metadata"@, metadata(gitea.namespace, gitea.name)).table(
        "data"@,
        TableView::empty().literal("USER_GID"@, "1000"@).literal("USER_UID"@, "1000"@).literal(
            "GITEA_WORK_DIR"@,
            "/gitea"@,
        ).literal("GITEA_CUSTOM"@, "/gitea/custom"@).literal(
            "GITEA_APP_INI"@,
            "/gitea/custom/conf/app.ini"@,
        ).literal("GITEA__database__DB_TYPE"@, "postgres"@).cell(
            "GITEA__database__HOST"@,
            gitea.db_host,
        ).cell("GITEA__database__NAME"@, gitea.db_name).cell(
            "GITEA__database__USER"@,
            gitea.db_user,
        ).cell("GITEA__database__PASSWD"@, gitea.db_password).literal(
            "GITEA__server__ROOT_URL"@,
            "https://%(DOMAIN)s"@ + gitea.path,
        ).cell("GITEA__server__DOMAIN"@, gitea.domain).literal(
            "GITEA__cache__ADAPTER"@,
            "memcache"@,
        ).cell("GITEA__cache__HOST"@, gitea.cache_host),
    )
}

/// The secret that holds the scripts of the two init containers.
pub open spec fn gitea_scripts(gitea: GiteaView) -> BlockView {
    BlockView::empty().literal("type"@, "Opaque"@).block(
        "metadata"@,
        metadata(gitea.namespace, gitea.name + "-init"@),
    ).table(
        "data"@,
        TableView::empty().literal("init.sh"@, gitea.init_script).literal(
            "migrate.sh"@,
            gitea.migrate_script,
        ),
    )
}

/// The init container that prepares the data directory.
pub open spec fn gitea_prepare(settings: TextView) -> BlockView {
    BlockView::empty().literal("name"@, "init"@).literal("image"@, gitea_image()).texts(
        "command"@,
        TextsView::empty().literal("bash"@).literal("/usr/sbin/init.sh"@),
    ).block("volume_mount"@, volume_mount("giteadata"@, "/gitea"@)).block(
        "volume_mount"@,
        volume_mount("init-scripts"@, "/usr/sbin"@),
    ).block("env_from"@, env_from_config_map(settings)).block(
        "security_context"@,
        BlockView::empty().literal("run_as_user"@, "0"@),
    )
}

/// The init container that brings the database up to date and creates the
/// first administrator.
pub open spec fn gitea_migrate(settings: TextView, root_account: TextView) -> BlockView {
    BlockView::empty().literal("name"@, "init-gitea"@).literal("image"@, gitea_image()).texts(
        "command"@,
        TextsView::empty().literal("bash"@).literal("/usr/sbin/migrate.sh"@),
    ).block("volume_mount"@, volume_mount("giteadata"@, "/gitea"@)).block(
        "volume_mount"@,
        volume_mount("init-scripts"@, "/usr/sbin"@),
    ).block("env_from"@, env_from_config_map(settings)).block(
        "env_from"@,
        env_from_secret(root_account),
    )
}

/// The probe that asks the server for its health.
pub open spec fn gitea_health() -> BlockView {
    BlockView::empty().block(
        "http_get"@,
        BlockView::empty().literal("path"@, "/api/healthz"@).literal("port"@, "http"@),
    )
}

/// The container that runs the server.
pub open spec fn gitea_server(settings: TextView) -> BlockView {
    BlockView::empty().literal("name"@, "gitea"@).literal("image"@, gitea_image()).block(
        "port"@,
        named_port("http"@, 3000),
    ).block("port"@, named_port("ssh"@, 22)).block(
        "volume_mount"@,
        volume_mount("giteadata"@, "/gitea"@),
    ).block("env_from"@, env_from_config_map(settings)).block(
        "readiness_probe"@,
        gitea_health(),
    ).block("liveness_probe"@, paced(gitea_health()))
}

/// The pod that the workload runs: both init containers, the server, and
/// the volumes that they mount.
pub open spec fn gitea_pod(
    gitea: GiteaView,
    settings: TextView,
    root_account: TextView,
    scripts: TextView,
) -> BlockView {
    BlockView::empty().block("init_container"@, gitea_prepare(settings)).block(
        "init_container"@,
        gitea_migrate(settings, root_account),
    ).block("container"@, gitea_server(settings)).block(
        "volume"@,
        BlockView::empty().literal("name"@, "giteadata"@).block(
            "persistent_volume_claim"@,
            BlockView::empty().text("claim_name"@, gitea.volume_claim),
        ),
    ).block(
        "volume"@,
        BlockView::empty().literal("name"@, "init-scripts"@).block(
            "secret"@,
            BlockView::empty().text("secret_name"@, scripts),
        ),
    )
}

/// The workload, given the cells that name the service, the settings, the
/// account of the first administrator and the scripts.
pub open spec fn gitea_workload_with(
    gitea: GiteaView,
    service: TextView,
    settings: TextView,
    root_account: TextView,
    scripts: TextView,
) -> BlockView {
    BlockView::empty().block("metadata"@, metadata(gitea.namespace, gitea.name)).block(
        "spec"@,
        BlockView::empty().literal("replicas"@, "1"@).text("service_name"@, service).block(
            "selector"@,
            BlockView::empty().table("match_labels"@, app_label("gitea-"@ + gitea.name)),
        ).block(
            "template"@,
            BlockView::empty().block(
                "metadata"@,
                BlockView::empty().table("labels"@, app_label("gitea-"@ + gitea.name)),
            ).block("spec"@, gitea_pod(gitea, settings, root_account, scripts)),
        ),
    )
}

/// The workload: one replica of the pod, behind the service.
pub open spec fn gitea_workload(gitea: GiteaView, home: Seq<Seq<char>>) -> BlockView {
    gitea_workload_with(
        gitea,
        attribute_of(home, "kubernetes_service"@, "gitea"@, "metadata.0.name"@),
        attribute_of(home, "kubernetes_config_map"@, "gitea-config"@, "metadata.0.name"@),
        attribute_of(home, "kubernetes_secret"@, "gitea-init-root-config"@, "metadata.0.name"@),
        attribute_of(home, "kubernetes_secret"@, "gitea-init-config"@, "metadata.0.name"@),
    )
}

/// The tree after a Gitea server was built under `scope`: the scope of the
/// server, created last, and below it, in this order, the service, the
/// account of the first administrator, the settings, the scripts and the
/// workload.
pub open spec fn gitea_tree(tree: TreeView, scope: int, gitea: GiteaView) -> TreeView {
    let this = tree.len() as int;
    let home = tree[scope].path.push(gitea.name);
    let own = grown(tree, scope, gitea.name, RoleView::Scope);
    let service = declared(own, this, "kubernetes_service"@, "gitea"@, gitea_service(gitea));
    let account = declared(
        service,
        this,
        "kubernetes_secret"@,
        "gitea-init-root-config"@,
        gitea_root_account(gitea),
    );
    let settings = declared(
        account,
        this,
        "kubernetes_config_map"@,
        "gitea-config"@,
        gitea_settings(gitea),
    );
    let scripts = declared(
        settings,
        this,
        "kubernetes_secret"@,
        "gitea-init-config"@,
        gitea_scripts(gitea),
    );
    declared(scripts, this, "kubernetes_stateful_set"@, "gitea"@, gitea_workload(gitea, home))
}

impl GiteaView {
    /// Where an ingress finds the server.
    pub open spec fn ingress(self) -> ServiceConfigView {
        ServiceConfigView {
            path: self.path,
            service_name: self.name + "-service"@,
            service_port: 3000,
        }
    }
}

impl Gitea {
    /// A builder for the Gitea server `name` under `scope`, with no field
    /// set.
    pub fn create(scope: Handle, name: &str) -> (builder: GiteaBuilder)
        ensures
            builder@ == GiteaBuilderView::fresh(scope.index as int, name@),
    {
        GiteaBuilder {
            stage: Stage::new(scope, name),
            namespace: None,
            path: None,
            domain: None,
            cache_host: None,
            db_host: None,
            db_name: None,
            db_user: None,
            db_password: None,
            root_user: None,
            root_passwd: None,
            root_email: None,
            volume_claim: None,
            init_script: None,
            migrate_script: None,
        }
    }

    /// The scope of the server in its stack.
    pub fn node(&self) -> (node: Handle)
        ensures
            node.index as int == self@.node,
    {
        self.node
    }

    /// Where an ingress finds the server: under its path, at the web port of
    /// its service.
    pub fn ingress(&self) -> (config: IngressServiceConfig)
        ensures
            config@ == self@.ingress(),
    {
        IngressServiceConfig {
            path: self.path.clone(),
            service_name: self.name.clone().concat("-service"),
            service_port: 3000,
        }
    }

    fn service(&self) -> (body: Block)
        ensures
            body@ == gitea_service(self@),
    {
        let name = self.name.clone().concat("-service");
        let app = "gitea-".to_owned().concat(self.name.as_str());
        Block::new().block("metadata", metadata_block(&self.namespace, name.as_str())).block(
            "spec",
            Block::new().table("selector", app_label_table(app.as_str())).block(
                "port",
                Block::new().literal("name", "web").number("port", 3000),
            ),
        )
    }

    fn root_account(&self) -> (body: Block)
        ensures
            body@ == gitea_root_account(self@),
    {
        Block::new().block("metadata", metadata_block(&self.namespace, self.name.as_str())).table(
            "data",
            Table::new().literal("INSTALL_LOCK", "true").cell(
                "ROOT_USER",
                self.root_user.clone(),
            ).cell("ROOT_PASSWD", self.root_passwd.clone()).cell(
                "ROOT_EMAIL",
                self.root_email.clone(),
            ),
        )
    }

    fn settings(&self) -> (body: Block)
        ensures
            body@ == gitea_settings(self@),
    {
        let root_url = "https://%(DOMAIN)s".to_owned().concat(self.path.as_str());
        Block::new().block("metadata", metadata_block(&self.namespace, self.name.as_str())).table(
            "data",
            Table::new().literal("USER_GID", "1000").literal("USER_UID", "1000").literal(
                "GITEA_WORK_DIR",
                "/gitea",
            ).literal("GITEA_CUSTOM", "/gitea/custom").literal(
                "GITEA_APP_INI",
                "/gitea/custom/conf/app.ini",
            ).literal("GITEA__database__DB_TYPE", "postgres").cell(
                "GITEA__database__HOST",
                self.db_host.clone(),
            ).cell("GITEA__database__NAME", self.db_name.clone()).cell(
                "GITEA__database__USER",
                self.db_user.clone(),
            ).cell("GITEA__database__PASSWD", self.db_password.clone()).literal(
                "GITEA__server__ROOT_URL",
                root_url.as_str(),
            ).cell("GITEA__server__DOMAIN", self.domain.clone()).literal(
                "GITEA__cache__ADAPTER",
                "memcache",
            ).cell("GITEA__cache__HOST", self.cache_host.clone()),
        )
    }

    fn scripts(&self) -> (body: Block)
        ensures
            body@ == gitea_scripts(self@),
    {
        let name = self.name.clone().concat("-init");
        Block::new().literal("type", "Opaque").block(
            "metadata",
            metadata_block(&self.namespace, name.as_str()),
        ).table(
            "data",
            Table::new().literal("init.sh", self.init_script.as_str()).literal(
                "migrate.sh",
                self.migrate_script.as_str(),
            ),
        )
    }

    fn prepare(settings: &ValueCell<String>) -> (body: Block)
        ensures
            body@ == gitea_prepare(settings@),
    {
        Block::new().literal("name", "init").literal("image", "gitea/gitea:1.19.0-rootless").texts(
            "command",
            TextList::new().literal("bash").literal("/usr/sbin/init.sh"),
        ).block("volume_mount", volume_mount_block("giteadata", "/gitea")).block(
            "volume_mount",
            volume_mount_block("init-scripts", "/usr/sbin"),
        ).block("env_from", env_from_config_map_block(settings)).block(
            "security_context",
            Block::new().literal("run_as_user", "0"),
        )
    }

    fn migrate(settings: &ValueCell<String>, root_account: &ValueCell<String>) -> (body: Block)
        ensures
            body@ == gitea_migrate(settings@, root_account@),
    {
        Block::new().literal("name", "init-gitea").literal(
            "image",
            "gitea/gitea:1.19.0-rootless",
        ).texts(
            "command",
            TextList::new().literal("bash").literal("/usr/sbin/migrate.sh"),
        ).block("volume_mount", volume_mount_block("giteadata", "/gitea")).block(
            "volume_mount",
            volume_mount_block("init-scripts", "/usr/sbin"),
        ).block("env_from", env_from_config_map_block(settings)).block(
            "env_from",
            env_from_secret_block(root_account),
        )
    }

    fn health() -> (body: Block)
        ensures
            body@ == gitea_health(),
    {
        Block::new().block(
            "http_get",
            Block::new().literal("path", "/api/healthz").literal("port", "http"),
        )
    }

    fn server(settings: &ValueCell<String>) -> (body: Block)
        ensures
            body@ == gitea_server(settings@),
    {
        Block::new().literal("name", "gitea").literal("image", "gitea/gitea:1.19.0-rootless").block(
            "port",
            named_port_block("http", 3000),
        ).block("port", named_port_block("ssh", 22)).block(
            "volume_mount",
            volume_mount_block("giteadata", "/gitea"),
        ).block("env_from", env_from_config_map_block(settings)).block(
            "readiness_probe",
            Gitea::health(),
        ).block("liveness_probe", paced_block(Gitea::health()))
    }

    fn workload(
        &self,
        service: ValueCell<String>,
        settings: &ValueCell<String>,
        root_account: &ValueCell<String>,
        scripts: ValueCell<String>,
    ) -> (body: Block)
        ensures
            body@ == gitea_workload_with(self@, service@, settings@, root_account@, scripts@),
    {
        let app = "gitea-".to_owned().concat(self.name.as_str());
        let pod = Block::new().block("init_container", Gitea::prepare(settings)).block(
            "init_container",
            Gitea::migrate(settings, root_account),
        ).block("container", Gitea::server(settings)).block(
            "volume",
            Block::new().literal("name", "giteadata").block(
                "persistent_volume_claim",
                Block::new().text("claim_name", self.volume_claim.clone()),
            ),
        ).block(
            "volume",
            Block::new().literal("name", "init-scripts").block(
                "secret",
                Block::new().text("secret_name", scripts),
            ),
        );
        Block::new().block("metadata", metadata_block(&self.namespace, self.name.as_str())).block(
            "spec",
            Block::new().literal("replicas", "1").text("service_name", service).block(
                "selector",
                Block::new().table("match_labels", app_label_table(app.as_str())),
            ).block(
                "template",
                Block::new().block(
                    "metadata",
                    Block::new().table("labels", app_label_table(app.as_str())),
                ).block("spec", pod),
            ),
        )
    }
}

/// The fields of a Gitea server while they are being set.
pub struct GiteaBuilder {
    stage: Stage,
    namespace: Option<ValueCell<String>>,
    path: Option<String>,
    domain: Option<ValueCell<String>>,
    cache_host: Option<ValueCell<String>>,
    db_host: Option<ValueCell<String>>,
    db_name: Option<ValueCell<String>>,
    db_user: Option<ValueCell<String>>,
    db_password: Option<ValueCell<String>>,
    root_user: Option<ValueCell<String>>,
    root_passwd: Option<ValueCell<String>>,
    root_email: Option<ValueCell<String>>,
    volume_claim: Option<ValueCell<String>>,
    init_script: Option<String>,
    migrate_script: Option<String>,
}

/// The mathematical value of a [`GiteaBuilder`].
pub struct GiteaBuilderView {
    pub stage: StageView,
    pub namespace: Option<TextView>,
    pub path: Option<Seq<char>>,
    pub domain: Option<TextView>,
    pub cache_host: Option<TextView>,
    pub db_host: Option<TextView>,
    pub db_name: Option<TextView>,
    pub db_user: Option<TextView>,
    pub db_password: Option<TextView>,
    pub root_user: Option<TextView>,
    pub root_passwd: Option<TextView>,
    pub root_email: Option<TextView>,
    pub volume_claim: Option<TextView>,
    pub init_script: Option<Seq<char>>,
    pub migrate_script: Option<Seq<char>>,
}

impl View for GiteaBuilder {
    type V = GiteaBuilderView;

    closed spec fn view(&self) -> GiteaBuilderView {
        GiteaBuilderView {
            stage: self.stage@,
            namespace: slot_view(self.namespace),
            path: text_view(self.path),
            domain: slot_view(self.domain),
            cache_host: slot_view(self.cache_host),
            db_host: slot_view(self.db_host),
            db_name: slot_view(self.db_name),
            db_user: slot_view(self.db_user),
            db_password: slot_view(self.db_password),
            root_user: slot_view(self.root_user),
            root_passwd: slot_view(self.root_passwd),
            root_email: slot_view(self.root_email),
            volume_claim: slot_view(self.volume_claim),
            init_script: text_view(self.init_script),
            migrate_script: text_view(self.migrate_script),
        }
    }
}

impl GiteaBuilderView {
    /// The builder for `name` under `scope` with no field set.
    pub open spec fn fresh(scope: int, name: Seq<char>) -> GiteaBuilderView {
        GiteaBuilderView {
            stage: StageView { scope, name, built: false },
            namespace: None,
            path: None,
            domain: None,
            cache_host: None,
            db_host: None,
            db_name: None,
            db_user: None,
            db_password: None,
            root_user: None,
            root_passwd: None,
            root_email: None,
            volume_claim: None,
            init_script: None,
            migrate_script: None,
        }
    }

    /// The required fields, in the order in which they are checked, each
    /// with whether it is set.
    pub open spec fn required(self) -> Seq<(Seq<char>, bool)> {
        seq![
            ("namespace"@, self.namespace is Some),
            ("db_name"@, self.db_name is Some),
            ("db_user"@, self.db_user is Some),
            ("db_password"@, self.db_password is Some),
            ("root_user"@, self.root_user is Some),
            ("root_passwd"@, self.root_passwd is Some),
            ("root_email"@, self.root_email is Some),
            ("volume_claim"@, self.volume_claim is Some),
        ]
    }

    /// The first required field that is not set, if there is one.
    pub open spec fn missing(self) -> Option<Seq<char>> {
        if self.namespace is None {
            Some("namespace"@)
        } else if self.db_name is None {
            Some("db_name"@)
        } else if self.db_user is None {
            Some("db_user"@)
        } else if self.db_password is None {
            Some("db_password"@)
        } else if self.root_user is None {
            Some("root_user"@)
        } else if self.root_passwd is None {
            Some("root_passwd"@)
        } else if self.root_email is None {
            Some("root_email"@)
        } else if self.volume_claim is None {
            Some("volume_claim"@)
        } else {
            None
        }
    }

    /// The field that is named as missing is the first of the required
    /// fields that is not set.
    pub proof fn lemma_missing_is_first_unset(self)
        ensures
            self.missing() == first_unset(self.required()),
    {
        reveal_with_fuel(first_unset_from, 9);
    }

    /// The server that the builder describes once every required field is
    /// set: what was set, and the default of each other field. The path
    /// defaults to `/`, the hosts and the domain to `localhost`, and the
    /// scripts to nothing.
    pub open spec fn finished(self, node: int) -> GiteaView {
        GiteaView {
            node,
            name: self.stage.name,
            namespace: self.namespace->0,
            path: or_text(self.path, "/"@),
            domain: or_literal(self.domain, "localhost"@),
            cache_host: or_literal(self.cache_host, "localhost"@),
            db_host: or_literal(self.db_host, "localhost"@),
            db_name: self.db_name->0,
            db_user: self.db_user->0,
            db_password: self.db_password->0,
            root_user: self.root_user->0,
            root_passwd: self.root_passwd->0,
            root_email: self.root_email->0,
            volume_claim: self.volume_claim->0,
            init_script: or_text(self.init_script, ""@),
            migrate_script: or_text(self.migrate_script, ""@),
        }
    }
}

impl GiteaBuilder {
    /// Sets the namespace that everything of the server lives in.
    pub fn namespace<V: IntoValue>(&mut self, value: V) -> (next: &mut GiteaBuilder)
        ensures
            next@ == (GiteaBuilderView { namespace: Some(value.cell()), ..old(self)@ }),
            final(self)@ == final(next)@,
    {
        self.namespace = Some(value.into_value());
        self
    }

    /// Sets the path under which the server is reached.
    pub fn path(&mut self, value: &str) -> (next: &mut GiteaBuilder)
        ensures
            next@ == (GiteaBuilderView { path: Some(value@), ..old(self)@ }),
            final(self)@ == final(next)@,
    {
        self.path = Some(value.to_owned());
        self
    }

    /// Sets the domain under which the server is reached.
    pub fn domain<V: IntoValue>(&mut self, value: V) -> (next: &mut GiteaBuilder)
        ensures
            next@ == (GiteaBuilderView { domain: Some(value.cell()), ..old(self)@ }),
            final(self)@ == final(next)@,
    {
        self.domain = Some(value.into_value());
        self
    }

    /// Sets the host of the cache.
    pub fn cache_host<V: IntoValue>(&mut self, value: V) -> (next: &mut GiteaBuilder)
        ensures
            next@ == (GiteaBuilderView { cache_host: Some(value.cell()), ..old(self)@ }),
            final(self)@ == final(next)@,
    {
        self.cache_host = Some(value.into_value());
        self
    }

    /// Sets the host of the database.
    pub fn db_host<V: IntoValue>(&mut self, value: V) -> (next: &mut GiteaBuilder)
        ensures
            next@ == (GiteaBuilderView { db_host: Some(value.cell()), ..old(self)@ }),
            final(self)@ == final(next)@,
    {
        self.db_host = Some(value.into_value());
        self
    }

    /// Sets the name of the database.
    pub fn db_name<V: IntoValue>(&mut self, value: V) -> (next: &mut GiteaBuilder)
        ensures
            next@ == (GiteaBuilderView { db_name: Some(value.cell()), ..old(self)@ }),
            final(self)@ == final(next)@,
    {
        self.db_name = Some(value.into_value());
        self
    }

    /// Sets the user of the database.
    pub fn db_user<V: IntoValue>(&mut self, value: V) -> (next: &mut GiteaBuilder)
        ensures
            next@ == (GiteaBuilderView { db_user: Some(value.cell()), ..old(self)@ }),
            final(self)@ == final(next)@,
    {
        self.db_user = Some(value.into_value());
        self
    }

    /// Sets the password of the database.
    pub fn db_password<V: IntoValue>(&mut self, value: V) -> (next: &mut GiteaBuilder)
        ensures
            next@ == (GiteaBuilderView { db_password: Some(value.cell()), ..old(self)@ }),
            final(self)@ == final(next)@,
    {
        self.db_password = Some(value.into_value());
        self
    }

    /// Sets the name of the first administrator.
    pub fn root_user<V: IntoValue>(&mut self, value: V) -> (next: &mut GiteaBuilder)
        ensures
            next@ == (GiteaBuilderView { root_user: Some(value.cell()), ..old(self)@ }),
            final(self)@ == final(next)@,
    {
        self.root_user = Some(value.into_value());
        self
    }

    /// Sets the password of the first administrator.
    pub fn root_passwd<V: IntoValue>(&mut self, value: V) -> (next: &mut GiteaBuilder)
        ensures
            next@ == (GiteaBuilderView { root_passwd: Some(value.cell()), ..old(self)@ }),
            final(self)@ == final(next)@,
    {
        self.root_passwd = Some(value.into_value());
        self
    }

    /// Sets the mail address of the first administrator.
    pub fn root_email<V: IntoValue>(&mut self, value: V) -> (next: &mut GiteaBuilder)
        ensures
            next@ == (GiteaBuilderView { root_email: Some(value.cell()), ..old(self)@ }),
            final(self)@ == final(next)@,
    {
        self.root_email = Some(value.into_value());
        self
    }

    /// Sets the volume claim that holds the data of the server.
    pub fn volume_claim<V: IntoValue>(&mut self, value: V) -> (next: &mut GiteaBuilder)
        ensures
            next@ == (GiteaBuilderView { volume_claim: Some(value.cell()), ..old(self)@ }),
            final(self)@ == final(next)@,
    {
        self.volume_claim = Some(value.into_value());
        self
    }

    /// Sets the script of the init container that prepares the data
    /// directory.
    pub fn init_script(&mut self, value: &str) -> (next: &mut GiteaBuilder)
        ensures
            next@ == (GiteaBuilderView { init_script: Some(value@), ..old(self)@ }),
            final(self)@ == final(next)@,
    {
        self.init_script = Some(value.to_owned());
        self
    }

    /// Sets the script of the init container that brings the database up to
    /// date.
    pub fn migrate_script(&mut self, value: &str) -> (next: &mut GiteaBuilder)
        ensures
            next@ == (GiteaBuilderView { migrate_script: Some(value@), ..old(self)@ }),
            final(self)@ == final(next)@,
    {
        self.migrate_script = Some(value.to_owned());
        self
    }

    /// The server that the fields describe, were it to stand at `node`;
    /// fails where a required field is not set.
    fn finish(&self, node: Handle) -> (made: Result<Gitea, GraphError>)
        ensures
            match made {
                Ok(gitea) => self@.missing() is None && gitea@ == self@.finished(node.index as int),
                Err(error) => self@.missing() is Some && error@ == (ErrorView::MissingField {
                    field: self@.missing()->0,
                }),
            },
    {
        let namespace = required(&self.namespace, "namespace")?;
        let db_name = required(&self.db_name, "db_name")?;
        let db_user = required(&self.db_user, "db_user")?;
        let db_password = required(&self.db_password, "db_password")?;
        let root_user = required(&self.root_user, "root_user")?;
        let root_passwd = required(&self.root_passwd, "root_passwd")?;
        let root_email = required(&self.root_email, "root_email")?;
        let volume_claim = required(&self.volume_claim, "volume_claim")?;
        Ok(
            Gitea {
                node,
                name: self.stage.name().clone(),
                namespace,
                path: defaulted_text(&self.path, "/"),
                domain: defaulted(&self.domain, "localhost"),
                cache_host: defaulted(&self.cache_host, "localhost"),
                db_host: defaulted(&self.db_host, "localhost"),
                db_name,
                db_user,
                db_password,
                root_user,
                root_passwd,
                root_email,
                volume_claim,
                init_script: defaulted_text(&self.init_script, ""),
                migrate_script: defaulted_text(&self.migrate_script, ""),
            },
        )
    }

    /// Checks the fields and, where nothing is missing, declares the server
    /// in `stack`.
    ///
    /// The one build of a builder: whatever comes of it, the builder counts
    /// as built afterwards. A build that fails leaves the stack as it was.
    pub fn build(&mut self, stack: &mut Stack) -> (made: Result<Gitea, GraphError>)
        requires
            old(stack).wf(),
        ensures
            final(stack).wf(),
            final(self)@ == (GiteaBuilderView {
                stage: StageView { built: true, ..old(self)@.stage },
                ..old(self)@
            }),
            match made {
                Ok(gitea) => {
                    &&& refusal(old(self)@.stage, old(self)@.missing(), old(stack)@) is None
                    &&& settled(old(stack)@, final(stack)@, old(self)@.stage)
                    &&& gitea@ == old(self)@.finished(old(stack)@.len() as int)
                    &&& final(stack)@ == gitea_tree(old(stack)@, old(self)@.stage.scope, gitea@)
                },
                Err(error) => {
                    &&& refusal(old(self)@.stage, old(self)@.missing(), old(stack)@) == Some(error@)
                    &&& final(stack)@ == old(stack)@
                },
            },
    {
        self.stage.begin()?;
        let this = self.finish(Handle { index: stack.len() })?;
        stack.create_child(self.stage.scope(), self.stage.name().as_str())?;
        this.declare(stack, Ghost(old(stack)@), Ghost(old(self)@.stage.scope));
        proof {
            assert(built_under(old(stack)@, stack@, old(self)@.stage.scope, old(self)@.stage.name));
            lemma_built_under_one_more(
                old(stack)@,
                stack@,
                old(self)@.stage.scope,
                old(self)@.stage.name,
            );
        }
        Ok(this)
    }
}

/// No two declarations of a Gitea server share both type and name.
proof fn lemma_gitea_names()
    ensures
        "gitea-init-root-config"@ != "gitea"@,
        "gitea-config"@ != "gitea"@,
        "gitea-config"@ != "gitea-init-root-config"@,
        "gitea-init-config"@ != "gitea"@,
        "gitea-init-config"@ != "gitea-init-root-config"@,
        "gitea-init-config"@ != "gitea-config"@,
        "kubernetes_stateful_set"@ != "kubernetes_service"@,
        "kubernetes_stateful_set"@ != "kubernetes_secret"@,
        "kubernetes_stateful_set"@ != "kubernetes_config_map"@,
{
    reveal_strlit("gitea");
    reveal_strlit("gitea-init-root-config");
    reveal_strlit("gitea-config");
    reveal_strlit("gitea-init-config");
    reveal_strlit("kubernetes_service");
    reveal_strlit("kubernetes_secret");
    reveal_strlit("kubernetes_config_map");
    reveal_strlit("kubernetes_stateful_set");
    assert("gitea"@.len() == 5);
    assert("gitea-init-root-config"@.len() == 22);
    assert("gitea-config"@.len() == 12);
    assert("gitea-init-config"@.len() == 17);
    assert("kubernetes_service"@.len() == 18);
    assert("kubernetes_secret"@.len() == 17);
    assert("kubernetes_config_map"@.len() == 21);
    assert("kubernetes_stateful_set"@.len() == 23);
}

impl Gitea {
    /// Declares what the server consists of below its scope, which was
    /// created last and under `scope`.
    fn declare(&self, stack: &mut Stack, Ghost(tree): Ghost<TreeView>, Ghost(scope): Ghost<int>)
        requires
            well_formed(tree),
            is_scope(tree, scope),
            self@.node == tree.len(),
            old(stack).wf(),
            old(stack)@ == grown(tree, scope, self@.name, RoleView::Scope),
            childless(old(stack)@, self@.node),
        ensures
            final(stack).wf(),
            final(stack)@ == gitea_tree(tree, scope, self@),
            scopeless(final(stack)@, self@.node),
    {
        let node = self.node;
        proof {
            lemma_gitea_names();
        }
        let service_body = self.service();
        let service = stack.plant(
            node,
            "gitea",
            Role::Resource { kind: "kubernetes_service".to_owned(), body: service_body },
        );
        let account_body = self.root_account();
        let account = stack.plant(
            node,
            "gitea-init-root-config",
            Role::Resource { kind: "kubernetes_secret".to_owned(), body: account_body },
        );
        let settings_body = self.settings();
        let settings = stack.plant(
            node,
            "gitea-config",
            Role::Resource { kind: "kubernetes_config_map".to_owned(), body: settings_body },
        );
        let scripts_body = self.scripts();
        let scripts = stack.plant(
            node,
            "gitea-init-config",
            Role::Resource { kind: "kubernetes_secret".to_owned(), body: scripts_body },
        );
        let service_name: ValueCell<String> = stack.refer(service, "metadata.0.name");
        let settings_name: ValueCell<String> = stack.refer(settings, "metadata.0.name");
        let account_name: ValueCell<String> = stack.refer(account, "metadata.0.name");
        let scripts_name: ValueCell<String> = stack.refer(scripts, "metadata.0.name");
        let workload_body = self.workload(
            service_name,
            &settings_name,
            &account_name,
            scripts_name,
        );
        stack.plant(
            node,
            "gitea",
            Role::Resource { kind: "kubernetes_stateful_set".to_owned(), body: workload_body },
        );
    }
}

} // verus!
