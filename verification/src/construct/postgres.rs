//! The PostgreSQL server.

use crate::body::{Block, BlockView, TextList, TextsView, TextView};
use crate::construct::parts::{
    app_label, app_label_table, metadata, metadata_block, named_port, named_port_block, paced,
    paced_block, volume_mount, volume_mount_block,
};
use crate::error::{ErrorView, GraphError};
use crate::stack::{Handle, Role, Stack};
use crate::stage::{
    first_unset, first_unset_from, refusal, required, settled, slot_view, Stage, StageView,
};
use crate::tree::{
    attribute_of, built_under, childless, declared, grown, is_scope, lemma_built_under_one_more,
    scopeless, well_formed, RoleView, TreeView,
};
use crate::value::{IntoValue, ValueCell};
use vstd::prelude::*;

verus! {

/// A PostgreSQL server with one database: its service and the workload that
/// runs it.
pub struct Postgres {
    node: Handle,
    name: String,
    namespace: ValueCell<String>,
    db_name: ValueCell<String>,
    user: ValueCell<String>,
    password: ValueCell<String>,
    volume_claim: ValueCell<String>,
}

/// The mathematical value of a [`Postgres`].
pub struct PostgresView {
    pub node: int,
    pub name: Seq<char>,
    pub namespace: TextView,
    pub db_name: TextView,
    pub user: TextView,
    pub password: TextView,
    pub volume_claim: TextView,
}

impl View for Postgres {
    type V = PostgresView;

    closed spec fn view(&self) -> PostgresView {
        PostgresView {
            node: self.node.index as int,
            name: self.name@,
            namespace: self.namespace@,
            db_name: self.db_name@,
            user: self.user@,
            password: self.password@,
            volume_claim: self.volume_claim@,
        }
    }
}

/// The service that exposes the port of the database.
pub open spec fn postgres_service(postgres: PostgresView) -> BlockView {
    BlockView::empty().block(
        "metadata"@,
        metadata(postgres.namespace, "postgres-"@ + postgres.name),
    ).block(
        "spec"@,
        BlockView::empty().table("selector"@, app_label("postgres-"@ + postgres.name)).block(
            "port"@,
            BlockView::empty().literal("name"@, "db"@).number("port"@, 5432),
        ),
    )
}

/// One variable of the environment of a container.
pub open spec fn postgres_env(name: Seq<char>, value: TextView) -> BlockView {
    BlockView::empty().literal("name"@, name).text("value"@, value)
}

/// The probe that asks the database a question as the user of the database.
/// The user and the database are named by their cells, so a reference stays
/// a reference.
pub open spec fn postgres_probe(postgres: PostgresView) -> BlockView {
    BlockView::empty().block(
        "exec"@,
        BlockView::empty().texts(
            "command"@,
            TextsView::empty().literal("psql"@).literal("-w"@).literal("-U"@).cell(
                postgres.user,
            ).literal("-d"@).cell(postgres.db_name).literal("-c"@).literal("SELECT 1"@),
        ),
    )
}

/// The container that runs the database.
pub open spec fn postgres_server(postgres: PostgresView) -> BlockView {
    BlockView::empty().literal("name"@, "postgres"@).literal(
        "image"@,
        "postgres:15.2-alpine"@,
    ).block("port"@, named_port("db"@, 5432)).block(
        "volume_mount"@,
        volume_mount("pgdata"@, "/var/lib/postgresql/data"@),
    ).block("env"@, postgres_env("POSTGRES_DB"@, postgres.db_name)).block(
        "env"@,
        postgres_env("POSTGRES_USER"@, postgres.user),
    ).block("env"@, postgres_env("POSTGRES_PASSWORD"@, postgres.password)).block(
        "liveness_probe"@,
        paced(postgres_probe(postgres)),
    ).block("readiness_probe"@, postgres_probe(postgres))
}

/// The workload, given the cell that names the service.
pub open spec fn postgres_workload_with(postgres: PostgresView, service: TextView) -> BlockView {
    BlockView::empty().block(
        "metadata"@,
        metadata(postgres.namespace, "postgres-"@ + postgres.name),
    ).block(
        "spec"@,
        BlockView::empty().literal("replicas"@, "1"@).text("service_name"@, service).block(
            "selector"@,
            BlockView::empty().table("match_labels"@, app_label("postgres-"@ + postgres.name)),
        ).block(
            "template"@,
            BlockView::empty().block(
                "metadata"@,
                BlockView::empty().table("labels"@, app_label("postgres-"@ + postgres.name)),
            ).block(
                "spec"@,
                BlockView::empty().block("container"@, postgres_server(postgres)).block(
                    "volume"@,
                    BlockView::empty().literal("name"@, "pgdata"@).block(
                        "persistent_volume_claim"@,
                        BlockView::empty().text("claim_name"@, postgres.volume_claim),
                    ),
                ),
            ),
        ),
    )
}

/// The workload: one replica of the database, behind the service.
pub open spec fn postgres_workload(postgres: PostgresView, home: Seq<Seq<char>>) -> BlockView {
    postgres_workload_with(
        postgres,
        attribute_of(home, "kubernetes_service"@, "postgres"@, "metadata.0.name"@),
    )
}

/// The tree after a PostgreSQL server was built under `scope`: the scope of
/// the server, created last, and below it the service and then the
/// workload.
pub open spec fn postgres_tree(tree: TreeView, scope: int, postgres: PostgresView) -> TreeView {
    let this = tree.len() as int;
    let home = tree[scope].path.push(postgres.name);
    let own = grown(tree, scope, postgres.name, RoleView::Scope);
    let service = declared(
        own,
        this,
        "kubernetes_service"@,
        "postgres"@,
        postgres_service(postgres),
    );
    declared(
        service,
        this,
        "kubernetes_stateful_set"@,
        "postgres"@,
        postgres_workload(postgres, home),
    )
}

impl Postgres {
    /// A builder for the PostgreSQL server `name` under `scope`, with no
    /// field set.
    pub fn create(scope: Handle, name: &str) -> (builder: PostgresBuilder)
        ensures
            builder@ == PostgresBuilderView::fresh(scope.index as int, name@),
    {
        PostgresBuilder {
            stage: Stage::new(scope, name),
            namespace: None,
            db_name: None,
            user: None,
            password: None,
            volume_claim: None,
        }
    }

    /// The scope of the server in its stack.
    pub fn node(&self) -> (node: Handle)
        ensures
            node.index as int == self@.node,
    {
        self.node
    }

    /// The volume claim that holds the data, as it was handed to the
    /// builder.
    pub fn volume_claim(&self) -> (cell: &ValueCell<String>)
        ensures
            cell@ == self@.volume_claim,
    {
        &self.volume_claim
    }

    fn service(&self) -> (body: Block)
        ensures
            body@ == postgres_service(self@),
    {
        let full_name = "postgres-".to_owned().concat(self.name.as_str());
        Block::new().block("metadata", metadata_block(&self.namespace, full_name.as_str())).block(
            "spec",
            Block::new().table("selector", app_label_table(full_name.as_str())).block(
                "port",
                Block::new().literal("name", "db").number("port", 5432),
            ),
        )
    }

    fn env(name: &str, value: &ValueCell<String>) -> (body: Block)
        ensures
            body@ == postgres_env(name@, value@),
    {
        Block::new().literal("name", name).text("value", value.clone())
    }

    fn probe(&self) -> (body: Block)
        ensures
            body@ == postgres_probe(self@),
    {
        Block::new().block(
            "exec",
            Block::new().texts(
                "command",
                TextList::new().literal("psql").literal("-w").literal("-U").cell(
                    self.user.clone(),
                ).literal("-d").cell(self.db_name.clone()).literal("-c").literal("SELECT 1"),
            ),
        )
    }

    fn server(&self) -> (body: Block)
        ensures
            body@ == postgres_server(self@),
    {
        Block::new().literal("name", "postgres").literal("image", "postgres:15.2-alpine").block(
            "port",
            named_port_block("db", 5432),
        ).block("volume_mount", volume_mount_block("pgdata", "/var/lib/postgresql/data")).block(
            "env",
            Postgres::env("POSTGRES_DB", &self.db_name),
        ).block("env", Postgres::env("POSTGRES_USER", &self.user)).block(
            "env",
            Postgres::env("POSTGRES_PASSWORD", &self.password),
        ).block("liveness_probe", paced_block(self.probe())).block(
            "readiness_probe",
            self.probe(),
        )
    }

    fn workload(&self, service: ValueCell<String>) -> (body: Block)
        ensures
            body@ == postgres_workload_with(self@, service@),
    {
        let full_name = "postgres-".to_owned().concat(self.name.as_str());
        Block::new().block("metadata", metadata_block(&self.namespace, full_name.as_str())).block(
            "spec",
            Block::new().literal("replicas", "1").text("service_name", service).block(
                "selector",
                Block::new().table("match_labels", app_label_table(full_name.as_str())),
            ).block(
                "template",
                Block::new().block(
                    "metadata",
                    Block::new().table("labels", app_label_table(full_name.as_str())),
                ).block(
                    "spec",
                    Block::new().block("container", self.server()).block(
                        "volume",
                        Block::new().literal("name", "pgdata").block(
                            "persistent_volume_claim",
                            Block::new().text("claim_name", self.volume_claim.clone()),
                        ),
                    ),
                ),
            ),
        )
    }

    /// Declares what the server consists of below its scope, which was
    /// created last and under `scope`.
    fn declare(&self, stack: &mut Stack, Ghost(tree): Ghost<TreeView>, Ghost(scope): Ghost<int>)
        requires
            well_formed(tree),
            is_scope(tree, scope),
            self@.node == tree.len(),
            old(stack).wf(),
            old(stack)@ == grown(tree, scope, self@.name, RoleView::Scope),
            childless(old(stack)@, self@.node),
        ensures
            final(stack).wf(),
            final(stack)@ == postgres_tree(tree, scope, self@),
            scopeless(final(stack)@, self@.node),
    {
        let node = self.node;
        proof {
            reveal_strlit("kubernetes_service");
            reveal_strlit("kubernetes_stateful_set");
            assert("kubernetes_service"@.len() == 18);
            assert("kubernetes_stateful_set"@.len() == 23);
        }
        let service_body = self.service();
        let service = stack.plant(
            node,
            "postgres",
            Role::Resource { kind: "kubernetes_service".to_owned(), body: service_body },
        );
        let service_name: ValueCell<String> = stack.refer(service, "metadata.0.name");
        let workload_body = self.workload(service_name);
        stack.plant(
            node,
            "postgres",
            Role::Resource { kind: "kubernetes_stateful_set".to_owned(), body: workload_body },
        );
    }
}

/// The fields of a PostgreSQL server while they are being set.
pub struct PostgresBuilder {
    stage: Stage,
    namespace: Option<ValueCell<String>>,
    db_name: Option<ValueCell<String>>,
    user: Option<ValueCell<String>>,
    password: Option<ValueCell<String>>,
    volume_claim: Option<ValueCell<String>>,
}

/// The mathematical value of a [`PostgresBuilder`].
pub struct PostgresBuilderView {
    pub stage: StageView,
    pub namespace: Option<TextView>,
    pub db_name: Option<TextView>,
    pub user: Option<TextView>,
    pub password: Option<TextView>,
    pub volume_claim: Option<TextView>,
}

impl View for PostgresBuilder {
    type V = PostgresBuilderView;

    closed spec fn view(&self) -> PostgresBuilderView {
        PostgresBuilderView {
            stage: self.stage@,
            namespace: slot_view(self.namespace),
            db_name: slot_view(self.db_name),
            user: slot_view(self.user),
            password: slot_view(self.password),
            volume_claim: slot_view(self.volume_claim),
        }
    }
}

impl PostgresBuilderView {
    /// The builder for `name` under `scope` with no field set.
    pub open spec fn fresh(scope: int, name: Seq<char>) -> PostgresBuilderView {
        PostgresBuilderView {
            stage: StageView { scope, name, built: false },
            namespace: None,
            db_name: None,
            user: None,
            password: None,
            volume_claim: None,
        }
    }

    /// The required fields, in the order in which they are checked, each
    /// with whether it is set.
    pub open spec fn required(self) -> Seq<(Seq<char>, bool)> {
        seq![
            ("namespace"@, self.namespace is Some),
            ("db_name"@, self.db_name is Some),
            ("user"@, self.user is Some),
            ("password"@, self.password is Some),
            ("volume_claim"@, self.volume_claim is Some),
        ]
    }

    /// The first required field that is not set, if there is one.
    pub open spec fn missing(self) -> Option<Seq<char>> {
        if self.namespace is None {
            Some("namespace"@)
        } else if self.db_name is None {
            Some("db_name"@)
        } else if self.user is None {
            Some("user"@)
        } else if self.password is None {
            Some("password"@)
        } else if self.volume_claim is None {
            Some("volume_claim"@)
        } else {
            None
        }
    }

    /// The field that is named as missing is the first of the required
    /// fields that is not set.
    pub proof fn lemma_missing_is_first_unset(self)
        ensures
            self.missing() == first_unset(self.required()),
    {
        reveal_with_fuel(first_unset_from, 6);
    }

    /// The server that the builder describes once every field is set.
    pub open spec fn finished(self, node: int) -> PostgresView {
        PostgresView {
            node,
            name: self.stage.name,
            namespace: self.namespace->0,
            db_name: self.db_name->0,
            user: self.user->0,
            password: self.password->0,
            volume_claim: self.volume_claim->0,
        }
    }
}

impl PostgresBuilder {
    /// Sets the namespace that the server lives in.
    pub fn namespace<V: IntoValue>(&mut self, value: V) -> (next: &mut PostgresBuilder)
        ensures
            next@ == (PostgresBuilderView { namespace: Some(value.cell()), ..old(self)@ }),
            final(self)@ == final(next)@,
    {
        self.namespace = Some(value.into_value());
        self
    }

    /// Sets the name of the database.
    pub fn db_name<V: IntoValue>(&mut self, value: V) -> (next: &mut PostgresBuilder)
        ensures
            next@ == (PostgresBuilderView { db_name: Some(value.cell()), ..old(self)@ }),
            final(self)@ == final(next)@,
    {
        self.db_name = Some(value.into_value());
        self
    }

    /// Sets the user of the database.
    pub fn user<V: IntoValue>(&mut self, value: V) -> (next: &mut PostgresBuilder)
        ensures
            next@ == (PostgresBuilderView { user: Some(value.cell()), ..old(self)@ }),
            final(self)@ == final(next)@,
    {
        self.user = Some(value.into_value());
        self
    }

    /// Sets the password of the user.
    pub fn password<V: IntoValue>(&mut self, value: V) -> (next: &mut PostgresBuilder)
        ensures
            next@ == (PostgresBuilderView { password: Some(value.cell()), ..old(self)@ }),
            final(self)@ == final(next)@,
    {
        self.password = Some(value.into_value());
        self
    }

    /// Sets the volume claim that holds the data.
    pub fn volume_claim<V: IntoValue>(&mut self, value: V) -> (next: &mut PostgresBuilder)
        ensures
            next@ == (PostgresBuilderView { volume_claim: Some(value.cell()), ..old(self)@ }),
            final(self)@ == final(next)@,
    {
        self.volume_claim = Some(value.into_value());
        self
    }

    /// The server that the fields describe, were it to stand at `node`;
    /// fails where a required field is not set.
    fn finish(&self, node: Handle) -> (made: Result<Postgres, GraphError>)
        ensures
            match made {
                Ok(postgres) => self@.missing() is None && postgres@ == self@.finished(
                    node.index as int,
                ),
                Err(error) => self@.missing() is Some && error@ == (ErrorView::MissingField {
                    field: self@.missing()->0,
                }),
            },
    {
        let namespace = required(&self.namespace, "namespace")?;
        let db_name = required(&self.db_name, "db_name")?;
        let user = required(&self.user, "user")?;
        let password = required(&self.password, "password")?;
        let volume_claim = required(&self.volume_claim, "volume_claim")?;
        Ok(
            Postgres {
                node,
                name: self.stage.name().clone(),
                namespace,
                db_name,
                user,
                password,
                volume_claim,
            },
        )
    }

    /// Checks the fields and, where none is missing, declares the server in
    /// `stack`.
    ///
    /// The one build of a builder: whatever comes of it, the builder counts
    /// as built afterwards. A build that fails leaves the stack as it was.
    pub fn build(&mut self, stack: &mut Stack) -> (made: Result<Postgres, GraphError>)
        requires
            old(stack).wf(),
        ensures
            final(stack).wf(),
            final(self)@ == (PostgresBuilderView {
                stage: StageView { built: true, ..old(self)@.stage },
                ..old(self)@
            }),
            match made {
                Ok(postgres) => {
                    &&& refusal(old(self)@.stage, old(self)@.missing(), old(stack)@) is None
                    &&& settled(old(stack)@, final(stack)@, old(self)@.stage)
                    &&& postgres@ == old(self)@.finished(old(stack)@.len() as int)
                    &&& final(stack)@ == postgres_tree(
                        old(stack)@,
                        old(self)@.stage.scope,
                        postgres@,
                    )
                },
                Err(error) => {
                    &&& refusal(old(self)@.stage, old(self)@.missing(), old(stack)@) == Some(error@)
                    &&& final(stack)@ == old(stack)@
                },
            },
    {
        self.stage.begin()?;
        let this = self.finish(Handle { index: stack.len() })?;
        stack.create_child(self.stage.scope(), self.stage.name().as_str())?;
        this.declare(stack, Ghost(old(stack)@), Ghost(old(self)@.stage.scope));
        proof {
            assert(built_under(old(stack)@, stack@, old(self)@.stage.scope, old(self)@.stage.name));
            lemma_built_under_one_more(
                old(stack)@,
                stack@,
                old(self)@.stage.scope,
                old(self)@.stage.name,
            );
        }
        Ok(this)
    }
}

} // verus!
