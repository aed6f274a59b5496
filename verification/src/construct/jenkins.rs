//! The Jenkins server.

use crate::body::{Block, BlockView, Table, TableView, TextList, TextsView, TextView};
use crate::construct::ingress::{IngressServiceConfig, ServiceConfigView};
use crate::construct::parts::{
    app_label, app_label_table, cluster_metadata, cluster_metadata_block, env_from_config_map,
    env_from_config_map_block, metadata, metadata_block, named_port, named_port_block, volume_mount,
    volume_mount_block,
};
use crate::error::{ErrorView, GraphError};
use crate::stack::{Handle, Role, Stack};
use crate::stage::{
    first_unset, first_unset_from, refusal, required, settled, slot_view, text_view, Stage,
    StageView,
};
use crate::tree::{
    attribute_of, built_under, childless, declared, grown, is_scope, lemma_built_under_one_more,
    scopeless, well_formed, RoleView, TreeView,
};
use crate::value::{IntoValue, ValueCell};
use vstd::prelude::*;

verus! {

/// A Jenkins server: an account that may administer the cluster, the
/// settings, the workload and its service.
pub struct Jenkins {
    node: Handle,
    name: String,
    namespace: ValueCell<String>,
    path: String,
    domain: String,
    plugins_script: String,
}

/// The mathematical value of a [`Jenkins`].
pub struct JenkinsView {
    pub node: int,
    pub name: Seq<char>,
    pub namespace: TextView,
    pub path: Seq<char>,
    pub domain: Seq<char>,
    pub plugins_script: Seq<char>,
}

impl View for Jenkins {
    type V = JenkinsView;

    closed spec fn view(&self) -> JenkinsView {
        JenkinsView {
            node: self.node.index as int,
            name: self.name@,
            namespace: self.namespace@,
            path: self.path@,
            domain: self.domain@,
            plugins_script: self.plugins_script@,
        }
    }
}

/// The image that every container of the server runs.
pub open spec fn jenkins_image() -> Seq<char> {
    "jenkins/jenkins:2.400"@
}

/// The role that may do everything in the cluster.
pub open spec fn jenkins_role(jenkins: JenkinsView) -> BlockView {
    BlockView::empty().block("metadata"@, cluster_metadata(jenkins.name)).block(
        "rule"@,
        BlockView::empty().texts("api_groups"@, TextsView::empty().literal(""@)).texts(
            "resources"@,
            TextsView::empty().literal("*"@),
        ).texts("verbs"@, TextsView::empty().literal("*"@)),
    )
}

/// The account that the server acts as.
pub open spec fn jenkins_account(jenkins: JenkinsView) -> BlockView {
    BlockView::empty().block("metadata"@, metadata(jenkins.namespace, jenkins.name))
}

/// The binding that gives the role to the account. Both ends are named
/// after the role.
pub open spec fn jenkins_binding(jenkins: JenkinsView, home: Seq<Seq<char>>) -> BlockView {
    let role = attribute_of(home, "kubernetes_cluster_role"@, "jenkins-admin"@, "metadata.0.name"@);
    BlockView::empty().block("metadata"@, cluster_metadata(jenkins.name)).block(
        "role_ref"@,
        BlockView::empty().literal("api_group"@, "rbac.authorization.k8s.io"@).literal(
            "kind"@,
            "ClusterRole"@,
        ).text("name"@, role),
    ).block(
        "subject"@,
        BlockView::empty().literal("kind"@, "ServiceAccount"@).text("name"@, role).text(
            "namespace"@,
            jenkins.namespace,
        ),
    )
}

/// The configuration as code of the server, which tells it its own address.
pub open spec fn jenkins_casc_yaml(jenkins: JenkinsView) -> Seq<char> {
    "\nunclassified:\n  location:\n    url: https://"@ + jenkins.domain + jenkins.path + "\n"@
}

/// The secret that holds the configuration as code and the script that
/// installs the plugins.
pub open spec fn jenkins_casc(jenkins: JenkinsView) -> BlockView {
    BlockView::empty().block(
        "metadata"@,
        metadata(jenkins.namespace, jenkins.name + "-casc"@),
    ).table(
        "data"@,
        TableView::empty().literal("casc.yaml"@, jenkins_casc_yaml(jenkins)).literal(
            "install-plugins.sh"@,
            jenkins.plugins_script,
        ),
    )
}

/// The settings of the server, as the environment of its containers.
pub open spec fn jenkins_settings(jenkins: JenkinsView) -> BlockView {
    BlockView::empty().block("metadata"@, metadata(jenkins.namespace, jenkins.name)).table(
        "data"@,
        TableView::empty().literal("JENKINS_OPTS"@, "--prefix="@ + jenkins.path).literal(
            "JAVA_OPTS"@,
            "-Djenkins.install.runSetupWizard=false -Dcasc.reload.token="@ + jenkins.name,
        ).literal("CASC_JENKINS_CONFIG"@, "/config"@),
    )
}

/// The init container that installs the plugins.
pub open spec fn jenkins_plugins(settings: TextView) -> BlockView {
    BlockView::empty().literal("name"@, "install-plugins"@).literal(
        "image"@,
        jenkins_image(),
    ).texts(
        "command"@,
        TextsView::empty().literal("bash"@).literal("/config/install-plugins.sh"@),
    ).block("volume_mount"@, volume_mount("jenkins-data"@, "/var/jenkins_home"@)).block(
        "volume_mount"@,
        volume_mount("jenkins-casc"@, "/config"@),
    ).block("env_from"@, env_from_config_map(settings))
}

/// The probe that asks the server for its login page.
pub open spec fn jenkins_probe(jenkins: JenkinsView) -> BlockView {
    BlockView::empty().block(
        "http_get"@,
        BlockView::empty().literal("path"@, jenkins.path + "/login"@).literal("port"@, "8080"@),
    ).number("period_seconds"@, 12).number("timeout_seconds"@, 5).number("failure_threshold"@, 10)
}

/// The container that runs the server.
pub open spec fn jenkins_server(jenkins: JenkinsView, settings: TextView) -> BlockView {
    BlockView::empty().literal("name"@, "jenkins"@).literal("image"@, jenkins_image()).block(
        "port"@,
        named_port("http"@, 8080),
    ).block("port"@, named_port("jnlp"@, 50000)).block(
        "liveness_probe"@,
        jenkins_probe(jenkins),
    ).block("readiness_probe"@, jenkins_probe(jenkins)).block(
        "volume_mount"@,
        volume_mount("jenkins-data"@, "/var/jenkins_home"@),
    ).block("volume_mount"@, volume_mount("jenkins-casc"@, "/config"@)).block(
        "env_from"@,
        env_from_config_map(settings),
    )
}

/// Who the containers of the server run as.
pub open spec fn jenkins_security() -> BlockView {
    BlockView::empty().literal("fs_group"@, "1000"@).literal("run_as_user"@, "1000"@).literal(
        "run_as_group"@,
        "100"@,
    ).flag("run_as_non_root"@, true)
}

/// The pod that the workload runs.
pub open spec fn jenkins_pod(
    jenkins: JenkinsView,
    account: TextView,
    settings: TextView,
    casc: TextView,
) -> BlockView {
    BlockView::empty().block("security_context"@, jenkins_security()).text(
        "service_account_name"@,
        account,
    ).block("init_container"@, jenkins_plugins(settings)).block(
        "container"@,
        jenkins_server(jenkins, settings),
    ).block(
        "volume"@,
        BlockView::empty().literal("name"@, "jenkins-data"@).block(
            "empty_dir"@,
            BlockView::empty(),
        ),
    ).block(
        "volume"@,
        BlockView::empty().literal("name"@, "jenkins-casc"@).block(
            "secret"@,
            BlockView::empty().text("secret_name"@, casc),
        ),
    )
}

/// The workload, given the cells that name the account, the settings and
/// the configuration as code.
pub open spec fn jenkins_workload_with(
    jenkins: JenkinsView,
    account: TextView,
    settings: TextView,
    casc: TextView,
) -> BlockView {
    BlockView::empty().block("metadata"@, metadata(jenkins.namespace, jenkins.name)).block(
        "spec"@,
        BlockView::empty().literal("replicas"@, "1"@).block(
            "selector"@,
            BlockView::empty().table("match_labels"@, app_label(jenkins.name)),
        ).block(
            "template"@,
            BlockView::empty().block(
                "metadata"@,
                BlockView::empty().table("labels"@, app_label(jenkins.name)),
            ).block("spec"@, jenkins_pod(jenkins, account, settings, casc)),
        ),
    )
}

/// The workload: one replica of the pod.
pub open spec fn jenkins_workload(jenkins: JenkinsView, home: Seq<Seq<char>>) -> BlockView {
    jenkins_workload_with(
        jenkins,
        attribute_of(home, "kubernetes_service_account"@, "jenkins-admin"@, "metadata.0.name"@),
        attribute_of(home, "kubernetes_config_map"@, "jenkins"@, "metadata.0.name"@),
        attribute_of(home, "kubernetes_secret"@, "jenkins-casc"@, "metadata.0.name"@),
    )
}

/// The service that exposes the web port of the server.
pub open spec fn jenkins_service(jenkins: JenkinsView) -> BlockView {
    BlockView::empty().block(
        "metadata"@,
        metadata(jenkins.namespace, jenkins.name + "-service"@),
    ).block(
        "spec"@,
        BlockView::empty().literal("type"@, "ClusterIP"@).table(
            "selector"@,
            app_label(jenkins.name),
        ).block("port"@, BlockView::empty().number("port"@, 8080)),
    )
}

/// The tree after a Jenkins server was built under `scope`: the scope of
/// the server, created last, and below it, in this order, the role, the
/// account, the binding, the configuration as code, the settings, the
/// workload and the service.
pub open spec fn jenkins_tree(tree: TreeView, scope: int, jenkins: JenkinsView) -> TreeView {
    let this = tree.len() as int;
    let home = tree[scope].path.push(jenkins.name);
    let own = grown(tree, scope, jenkins.name, RoleView::Scope);
    let role = declared(
        own,
        this,
        "kubernetes_cluster_role"@,
        "jenkins-admin"@,
        jenkins_role(jenkins),
    );
    let account = declared(
        role,
        this,
        "kubernetes_service_account"@,
        "jenkins-admin"@,
        jenkins_account(jenkins),
    );
    let binding = declared(
        account,
        this,
        "kubernetes_cluster_role_binding"@,
        "jenkins-admin"@,
        jenkins_binding(jenkins, home),
    );
    let casc = declared(
        binding,
        this,
        "kubernetes_secret"@,
        "jenkins-casc"@,
        jenkins_casc(jenkins),
    );
    let settings = declared(
        casc,
        this,
        "kubernetes_config_map"@,
        "jenkins"@,
        jenkins_settings(jenkins),
    );
    let workload = declared(
        settings,
        this,
        "kubernetes_deployment"@,
        "jenkins-server"@,
        jenkins_workload(jenkins, home),
    );
    declared(workload, this, "kubernetes_service"@, "jenkins"@, jenkins_service(jenkins))
}

impl JenkinsView {
    /// Where an ingress finds the server.
    pub open spec fn ingress(self) -> ServiceConfigView {
        ServiceConfigView {
            path: self.path,
            service_name: self.name + "-service"@,
            service_port: 8080,
        }
    }
}

impl Jenkins {
    /// A builder for the Jenkins server `name` under `scope`, with no field
    /// set.
    pub fn create(scope: Handle, name: &str) -> (builder: JenkinsBuilder)
        ensures
            builder@ == JenkinsBuilderView::fresh(scope.index as int, name@),
    {
        JenkinsBuilder {
            stage: Stage::new(scope, name),
            namespace: None,
            path: None,
            domain: None,
            plugins_script: None,
        }
    }

    /// The scope of the server in its stack.
    pub fn node(&self) -> (node: Handle)
        ensures
            node.index as int == self@.node,
    {
        self.node
    }

    /// Where an ingress finds the server: under its path, at the web port of
    /// its service.
    pub fn ingress(&self) -> (config: IngressServiceConfig)
        ensures
            config@ == self@.ingress(),
    {
        IngressServiceConfig {
            path: self.path.clone(),
            service_name: self.name.clone().concat("-service"),
            service_port: 8080,
        }
    }

    fn role(&self) -> (body: Block)
        ensures
            body@ == jenkins_role(self@),
    {
        Block::new().block("metadata", cluster_metadata_block(self.name.as_str())).block(
            "rule",
            Block::new().texts("api_groups", TextList::new().literal("")).texts(
                "resources",
                TextList::new().literal("*"),
            ).texts("verbs", TextList::new().literal("*")),
        )
    }

    fn account(&self) -> (body: Block)
        ensures
            body@ == jenkins_account(self@),
    {
        Block::new().block("metadata", metadata_block(&self.namespace, self.name.as_str()))
    }

    fn binding(&self, role: &ValueCell<String>) -> (body: Block)
        ensures
            body@ == BlockView::empty().block("metadata"@, cluster_metadata(self@.name)).block(
                "role_ref"@,
                BlockView::empty().literal("api_group"@, "rbac.authorization.k8s.io"@).literal(
                    "kind"@,
                    "ClusterRole"@,
                ).text("name"@, role@),
            ).block(
                "subject"@,
                BlockView::empty().literal("kind"@, "ServiceAccount"@).text("name"@, role@).text(
                    "namespace"@,
                    self@.namespace,
                ),
            ),
    {
        Block::new().block("metadata", cluster_metadata_block(self.name.as_str())).block(
            "role_ref",
            Block::new().literal("api_group", "rbac.authorization.k8s.io").literal(
                "kind",
                "ClusterRole",
            ).text("name", role.clone()),
        ).block(
            "subject",
            Block::new().literal("kind", "ServiceAccount").text("name", role.clone()).text(
                "namespace",
                self.namespace.clone(),
            ),
        )
    }

    fn casc(&self) -> (body: Block)
        ensures
            body@ == jenkins_casc(self@),
    {
        let name = self.name.clone().concat("-casc");
        let yaml = "\nunclassified:\n  location:\n    url: https://".to_owned().concat(
            self.domain.as_str(),
        ).concat(self.path.as_str()).concat("\n");
        Block::new().block("metadata", metadata_block(&self.namespace, name.as_str())).table(
            "data",
            Table::new().literal("casc.yaml", yaml.as_str()).literal(
                "install-plugins.sh",
                self.plugins_script.as_str(),
            ),
        )
    }

    fn settings(&self) -> (body: Block)
        ensures
            body@ == jenkins_settings(self@),
    {
        let options = "--prefix=".to_owned().concat(self.path.as_str());
        let java = "-Djenkins.install.runSetupWizard=false -Dcasc.reload.token=".to_owned().concat(
            self.name.as_str(),
        );
        Block::new().block("metadata", metadata_block(&self.namespace, self.name.as_str())).table(
            "data",
            Table::new().literal("JENKINS_OPTS", options.as_str()).literal(
                "JAVA_OPTS",
                java.as_str(),
            ).literal("CASC_JENKINS_CONFIG", "/config"),
        )
    }

    fn plugins(settings: &ValueCell<String>) -> (body: Block)
        ensures
            body@ == jenkins_plugins(settings@),
    {
        Block::new().literal("name", "install-plugins").literal(
            "image",
            "jenkins/jenkins:2.400",
        ).texts(
            "command",
            TextList::new().literal("bash").literal("/config/install-plugins.sh"),
        ).block("volume_mount", volume_mount_block("jenkins-data", "/var/jenkins_home")).block(
            "volume_mount",
            volume_mount_block("jenkins-casc", "/config"),
        ).block("env_from", env_from_config_map_block(settings))
    }

    fn probe(&self) -> (body: Block)
        ensures
            body@ == jenkins_probe(self@),
    {
        let login = self.path.clone().concat("/login");
        Block::new().block(
            "http_get",
            Block::new().literal("path", login.as_str()).literal("port", "8080"),
        ).number("period_seconds", 12).number("timeout_seconds", 5).number("failure_threshold", 10)
    }

    fn server(&self, settings: &ValueCell<String>) -> (body: Block)
        ensures
            body@ == jenkins_server(self@, settings@),
    {
        Block::new().literal("name", "jenkins").literal("image", "jenkins/jenkins:2.400").block(
            "port",
            named_port_block("http", 8080),
        ).block("port", named_port_block("jnlp", 50000)).block(
            "liveness_probe",
            self.probe(),
        ).block("readiness_probe", self.probe()).block(
            "volume_mount",
            volume_mount_block("jenkins-data", "/var/jenkins_home"),
        ).block("volume_mount", volume_mount_block("jenkins-casc", "/config")).block(
            "env_from",
            env_from_config_map_block(settings),
        )
    }

    fn security() -> (body: Block)
        ensures
            body@ == jenkins_security(),
    {
        Block::new().literal("fs_group", "1000").literal("run_as_user", "1000").literal(
            "run_as_group",
            "100",
        ).flag("run_as_non_root", true)
    }

    fn pod(
        &self,
        account: ValueCell<String>,
        settings: &ValueCell<String>,
        casc: ValueCell<String>,
    ) -> (body: Block)
        ensures
            body@ == jenkins_pod(self@, account@, settings@, casc@),
    {
        Block::new().block("security_context", Jenkins::security()).text(
            "service_account_name",
            account,
        ).block("init_container", Jenkins::plugins(settings)).block(
            "container",
            self.server(settings),
        ).block(
            "volume",
            Block::new().literal("name", "jenkins-data").block("empty_dir", Block::new()),
        ).block(
            "volume",
            Block::new().literal("name", "jenkins-casc").block(
                "secret",
                Block::new().text("secret_name", casc),
            ),
        )
    }

    fn workload(
        &self,
        account: ValueCell<String>,
        settings: &ValueCell<String>,
        casc: ValueCell<String>,
    ) -> (body: Block)
        ensures
            body@ == jenkins_workload_with(self@, account@, settings@, casc@),
    {
        Block::new().block("metadata", metadata_block(&self.namespace, self.name.as_str())).block(
            "spec",
            Block::new().literal("replicas", "1").block(
                "selector",
                Block::new().table("match_labels", app_label_table(self.name.as_str())),
            ).block(
                "template",
                Block::new().block(
                    "metadata",
                    Block::new().table("labels", app_label_table(self.name.as_str())),
                ).block("spec", self.pod(account, settings, casc)),
            ),
        )
    }

    fn service(&self) -> (body: Block)
        ensures
            body@ == jenkins_service(self@),
    {
        let name = self.name.clone().concat("-service");
        Block::new().block("metadata", metadata_block(&self.namespace, name.as_str())).block(
            "spec",
            Block::new().literal("type", "ClusterIP").table(
                "selector",
                app_label_table(self.name.as_str()),
            ).block("port", Block::new().number("port", 8080)),
        )
    }

    /// Declares what the server consists of below its scope, which was
    /// created last and under `scope`.
    fn declare(&self, stack: &mut Stack, Ghost(tree): Ghost<TreeView>, Ghost(scope): Ghost<int>)
        requires
            well_formed(tree),
            is_scope(tree, scope),
            self@.node == tree.len(),
            old(stack).wf(),
            old(stack)@ == grown(tree, scope, self@.name, RoleView::Scope),
            childless(old(stack)@, self@.node),
        ensures
            final(stack).wf(),
            final(stack)@ == jenkins_tree(tree, scope, self@),
            scopeless(final(stack)@, self@.node),
    {
        let node = self.node;
        proof {
            lemma_jenkins_names();
        }
        let role_body = self.role();
        let role = stack.plant(
            node,
            "jenkins-admin",
            Role::Resource { kind: "kubernetes_cluster_role".to_owned(), body: role_body },
        );
        let account_body = self.account();
        let account = stack.plant(
            node,
            "jenkins-admin",
            Role::Resource { kind: "kubernetes_service_account".to_owned(), body: account_body },
        );
        let role_name: ValueCell<String> = stack.refer(role, "metadata.0.name");
        let binding_body = self.binding(&role_name);
        stack.plant(
            node,
            "jenkins-admin",
            Role::Resource {
                kind: "kubernetes_cluster_role_binding".to_owned(),
                body: binding_body,
            },
        );
        let casc_body = self.casc();
        let casc = stack.plant(
            node,
            "jenkins-casc",
            Role::Resource { kind: "kubernetes_secret".to_owned(), body: casc_body },
        );
        let settings_body = self.settings();
        let settings = stack.plant(
            node,
            "jenkins",
            Role::Resource { kind: "kubernetes_config_map".to_owned(), body: settings_body },
        );
        let account_name: ValueCell<String> = stack.refer(account, "metadata.0.name");
        let settings_name: ValueCell<String> = stack.refer(settings, "metadata.0.name");
        let casc_name: ValueCell<String> = stack.refer(casc, "metadata.0.name");
        let workload_body = self.workload(account_name, &settings_name, casc_name);
        stack.plant(
            node,
            "jenkins-server",
            Role::Resource { kind: "kubernetes_deployment".to_owned(), body: workload_body },
        );
        let service_body = self.service();
        stack.plant(
            node,
            "jenkins",
            Role::Resource { kind: "kubernetes_service".to_owned(), body: service_body },
        );
    }
}

/// No two declarations of a Jenkins server share both type and name.
proof fn lemma_jenkins_names()
    ensures
        "kubernetes_service_account"@ != "kubernetes_cluster_role"@,
        "kubernetes_cluster_role_binding"@ != "kubernetes_cluster_role"@,
        "kubernetes_cluster_role_binding"@ != "kubernetes_service_account"@,
        "jenkins-casc"@ != "jenkins-admin"@,
        "jenkins"@ != "jenkins-admin"@,
        "jenkins"@ != "jenkins-casc"@,
        "jenkins-server"@ != "jenkins-admin"@,
        "jenkins-server"@ != "jenkins-casc"@,
        "jenkins-server"@ != "jenkins"@,
        "kubernetes_service"@ != "kubernetes_config_map"@,
{
    reveal_strlit("kubernetes_cluster_role");
    reveal_strlit("kubernetes_service_account");
    reveal_strlit("kubernetes_cluster_role_binding");
    reveal_strlit("kubernetes_service");
    reveal_strlit("kubernetes_config_map");
    reveal_strlit("jenkins-admin");
    reveal_strlit("jenkins-casc");
    reveal_strlit("jenkins-server");
    reveal_strlit("jenkins");
    assert("kubernetes_cluster_role"@.len() == 23);
    assert("kubernetes_service_account"@.len() == 26);
    assert("kubernetes_cluster_role_binding"@.len() == 31);
    assert("kubernetes_service"@.len() == 18);
    assert("kubernetes_config_map"@.len() == 21);
    assert("jenkins-admin"@.len() == 13);
    assert("jenkins-casc"@.len() == 12);
    assert("jenkins-server"@.len() == 14);
    assert("jenkins"@.len() == 7);
}

/// The fields of a Jenkins server while they are being set.
pub struct JenkinsBuilder {
    stage: Stage,
    namespace: Option<ValueCell<String>>,
    path: Option<String>,
    domain: Option<String>,
    plugins_script: Option<String>,
}

/// The mathematical value of a [`JenkinsBuilder`].
pub struct JenkinsBuilderView {
    pub stage: StageView,
    pub namespace: Option<TextView>,
    pub path: Option<Seq<char>>,
    pub domain: Option<Seq<char>>,
    pub plugins_script: Option<Seq<char>>,
}

impl View for JenkinsBuilder {
    type V = JenkinsBuilderView;

    closed spec fn view(&self) -> JenkinsBuilderView {
        JenkinsBuilderView {
            stage: self.stage@,
            namespace: slot_view(self.namespace),
            path: text_view(self.path),
            domain: text_view(self.domain),
            plugins_script: text_view(self.plugins_script),
        }
    }
}

impl JenkinsBuilderView {
    /// The builder for `name` under `scope` with no field set.
    pub open spec fn fresh(scope: int, name: Seq<char>) -> JenkinsBuilderView {
        JenkinsBuilderView {
            stage: StageView { scope, name, built: false },
            namespace: None,
            path: None,
            domain: None,
            plugins_script: None,
        }
    }

    /// The required fields, in the order in which they are checked, each
    /// with whether it is set.
    pub open spec fn required(self) -> Seq<(Seq<char>, bool)> {
        seq![
            ("path"@, self.path is Some),
            ("domain"@, self.domain is Some),
            ("namespace"@, self.namespace is Some),
        ]
    }

    /// The first required field that is not set, if there is one.
    pub open spec fn missing(self) -> Option<Seq<char>> {
        if self.path is None {
            Some("path"@)
        } else if self.domain is None {
            Some("domain"@)
        } else if self.namespace is None {
            Some("namespace"@)
        } else {
            None
        }
    }

    /// The field that is named as missing is the first of the required
    /// fields that is not set.
    pub proof fn lemma_missing_is_first_unset(self)
        ensures
            self.missing() == first_unset(self.required()),
    {
        reveal_with_fuel(first_unset_from, 4);
    }

    /// The server that the builder describes once every required field is
    /// set. The script that installs the plugins defaults to nothing.
    pub open spec fn finished(self, node: int) -> JenkinsView {
        JenkinsView {
            node,
            name: self.stage.name,
            namespace: self.namespace->0,
            path: self.path->0,
            domain: self.domain->0,
            plugins_script: match self.plugins_script {
                Some(script) => script,
                None => ""@,
            },
        }
    }
}

impl JenkinsBuilder {
    /// Sets the namespace that the server lives in.
    pub fn namespace<V: IntoValue>(&mut self, value: V) -> (next: &mut JenkinsBuilder)
        ensures
            next@ == (JenkinsBuilderView { namespace: Some(value.cell()), ..old(self)@ }),
            final(self)@ == final(next)@,
    {
        self.namespace = Some(value.into_value());
        self
    }

    /// Sets the path under which the server is reached.
    pub fn path(&mut self, value: &str) -> (next: &mut JenkinsBuilder)
        ensures
            next@ == (JenkinsBuilderView { path: Some(value@), ..old(self)@ }),
            final(self)@ == final(next)@,
    {
        self.path = Some(value.to_owned());
        self
    }

    /// Sets the domain under which the server is reached.
    pub fn domain(&mut self, value: &str) -> (next: &mut JenkinsBuilder)
        ensures
            next@ == (JenkinsBuilderView { domain: Some(value@), ..old(self)@ }),
            final(self)@ == final(next)@,
    {
        self.domain = Some(value.to_owned());
        self
    }

    /// Sets the script that installs the plugins.
    pub fn plugins_script(&mut self, value: &str) -> (next: &mut JenkinsBuilder)
        ensures
            next@ == (JenkinsBuilderView { plugins_script: Some(value@), ..old(self)@ }),
            final(self)@ == final(next)@,
    {
        self.plugins_script = Some(value.to_owned());
        self
    }

    /// The server that the fields describe, were it to stand at `node`;
    /// fails where a required field is not set.
    fn finish(&self, node: Handle) -> (made: Result<Jenkins, GraphError>)
        ensures
            match made {
                Ok(jenkins) => self@.missing() is None && jenkins@ == self@.finished(
                    node.index as int,
                ),
                Err(error) => self@.missing() is Some && error@ == (ErrorView::MissingField {
                    field: self@.missing()->0,
                }),
            },
    {
        let path = match &self.path {
            Some(path) => path.clone(),
            None => {
                return Err(GraphError::missing("path"));
            },
        };
        let domain = match &self.domain {
            Some(domain) => domain.clone(),
            None => {
                return Err(GraphError::missing("domain"));
            },
        };
        let namespace = required(&self.namespace, "namespace")?;
        let plugins_script = match &self.plugins_script {
            Some(script) => script.clone(),
            None => "".to_owned(),
        };
        Ok(
            Jenkins {
                node,
                name: self.stage.name().clone(),
                namespace,
                path,
                domain,
                plugins_script,
            },
        )
    }

    /// Checks the fields and, where nothing is missing, declares the server
    /// in `stack`.
    ///
    /// The one build of a builder: whatever comes of it, the builder counts
    /// as built afterwards. A build that fails leaves the stack as it was.
    pub fn build(&mut self, stack: &mut Stack) -> (made: Result<Jenkins, GraphError>)
        requires
            old(stack).wf(),
        ensures
            final(stack).wf(),
            final(self)@ == (JenkinsBuilderView {
                stage: StageView { built: true, ..old(self)@.stage },
                ..old(self)@
            }),
            match made {
                Ok(jenkins) => {
                    &&& refusal(old(self)@.stage, old(self)@.missing(), old(stack)@) is None
                    &&& settled(old(stack)@, final(stack)@, old(self)@.stage)
                    &&& jenkins@ == old(self)@.finished(old(stack)@.len() as int)
                    &&& final(stack)@ == jenkins_tree(
                        old(stack)@,
                        old(self)@.stage.scope,
                        jenkins@,
                    )
                },
                Err(error) => {
                    &&& refusal(old(self)@.stage, old(self)@.missing(), old(stack)@) == Some(error@)
                    &&& final(stack)@ == old(stack)@
                },
            },
    {
        self.stage.begin()?;
        let this = self.finish(Handle { index: stack.len() })?;
        stack.create_child(self.stage.scope(), self.stage.name().as_str())?;
        this.declare(stack, Ghost(old(stack)@), Ghost(old(self)@.stage.scope));
        proof {
            assert(built_under(old(stack)@, stack@, old(self)@.stage.scope, old(self)@.stage.name));
            lemma_built_under_one_more(
                old(stack)@,
                stack@,
                old(self)@.stage.scope,
                old(self)@.stage.name,
            );
        }
        Ok(this)
    }
}

} // verus!
