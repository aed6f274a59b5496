use gitserver::body::{Attr, Block};
use gitserver::construct::gitea::Gitea;
use gitserver::construct::ingress::{Ingress, IngressServiceConfig};
use gitserver::construct::jenkins::Jenkins;
use gitserver::construct::local_dir_volume::LocalDirVolume;
use gitserver::construct::local_dir_volume_claim::LocalDirVolumeClaim;
use gitserver::construct::local_volume::LocalVolume;
use gitserver::construct::local_volume_claim::LocalVolumeClaim;
use gitserver::construct::memcached::Memcached;
use gitserver::construct::postgres::Postgres;
use gitserver::error::GraphError;
use gitserver::stack::{Handle, Role, Stack};
use gitserver::value::ValueCell;

fn missing(field: &str) -> GraphError {
    GraphError::MissingField { field: field.to_string() }
}

fn body_of(stack: &Stack, index: usize) -> &Block {
    match &stack.node(Handle { index }).unwrap().role {
        Role::Resource { body, .. } => body,
        _ => panic!("the node is no resource"),
    }
}

fn kind_of(stack: &Stack, index: usize) -> &str {
    match &stack.node(Handle { index }).unwrap().role {
        Role::Resource { kind, .. } => kind,
        _ => panic!("the node is no resource"),
    }
}

fn block<'a>(parent: &'a Block, name: &str) -> &'a Block {
    match parent.find(name) {
        Some(Attr::Blocks(blocks)) => &blocks[0],
        _ => panic!("no block of that name"),
    }
}

fn text<'a>(parent: &'a Block, name: &str) -> &'a ValueCell<String> {
    match parent.find(name) {
        Some(Attr::Text(cell)) => cell,
        _ => panic!("no text of that name"),
    }
}

fn literal(value: &str) -> ValueCell<String> {
    ValueCell::literal(value.to_string())
}

#[test]
fn volume_without_storage_is_refused() {
    let mut stack = Stack::new("root");
    let made = LocalDirVolume::create(stack.root(), "vol")
        .storage_class("local")
        .mount_path("/mnt")
        .node("host")
        .build(&mut stack);
    assert_eq!(made.err(), Some(missing("storage")));
    assert_eq!(stack.len(), 1);
}

#[test]
fn first_missing_field_is_named() {
    let mut stack = Stack::new("root");
    let made = LocalVolume::create(stack.root(), "vol").storage("10Gi").build(&mut stack);
    assert_eq!(made.err(), Some(missing("storage_class")));
    let made = LocalVolume::create(stack.root(), "vol")
        .storage("10Gi")
        .storage_class("local")
        .node("host")
        .build(&mut stack);
    assert_eq!(made.err(), Some(missing("mount_path")));
    let made = LocalVolume::create(stack.root(), "vol")
        .storage("10Gi")
        .storage_class("local")
        .mount_path("/mnt")
        .build(&mut stack);
    assert_eq!(made.err(), Some(missing("node")));
    assert_eq!(stack.len(), 1);
}

#[test]
fn setting_the_missing_field_lets_the_build_succeed() {
    let mut stack = Stack::new("root");
    let made = Memcached::create(stack.root(), "cache").namespace("default").build(&mut stack);
    assert_eq!(made.err(), Some(missing("memory_limit")));
    let made = Memcached::create(stack.root(), "cache")
        .namespace("default")
        .memory_limit("64Mi")
        .build(&mut stack);
    assert!(made.is_ok());
    assert_eq!(stack.len(), 4);
}

#[test]
fn each_kind_names_its_missing_fields() {
    let mut stack = Stack::new("root");
    let root = stack.root();
    assert_eq!(Gitea::create(root, "g").build(&mut stack).err(), Some(missing("namespace")));
    assert_eq!(
        Gitea::create(root, "g").namespace("n").build(&mut stack).err(),
        Some(missing("db_name"))
    );
    assert_eq!(
        Gitea::create(root, "g")
            .namespace("n")
            .db_name("d")
            .db_user("u")
            .db_password("p")
            .root_user("r")
            .root_passwd("s")
            .root_email("e")
            .build(&mut stack)
            .err(),
        Some(missing("volume_claim"))
    );
    assert_eq!(Jenkins::create(root, "j").build(&mut stack).err(), Some(missing("path")));
    assert_eq!(
        Jenkins::create(root, "j").path("/ci").build(&mut stack).err(),
        Some(missing("domain"))
    );
    assert_eq!(
        Jenkins::create(root, "j").path("/ci").domain("example.org").build(&mut stack).err(),
        Some(missing("namespace"))
    );
    assert_eq!(Postgres::create(root, "p").build(&mut stack).err(), Some(missing("namespace")));
    assert_eq!(
        Postgres::create(root, "p").namespace("n").db_name("d").build(&mut stack).err(),
        Some(missing("user"))
    );
    assert_eq!(
        Postgres::create(root, "p").namespace("n").db_name("d").user("u").build(&mut stack).err(),
        Some(missing("password"))
    );
    assert_eq!(Memcached::create(root, "m").build(&mut stack).err(), Some(missing("namespace")));
    assert_eq!(Ingress::create(root, "i").build(&mut stack).err(), Some(missing("namespace")));
    assert_eq!(
        Ingress::create(root, "i").namespace("n").build(&mut stack).err(),
        Some(missing("services"))
    );
    assert_eq!(
        LocalVolumeClaim::create(root, "c").build(&mut stack).err(),
        Some(missing("namespace"))
    );
    assert_eq!(
        LocalDirVolumeClaim::create(root, "c")
            .namespace("n")
            .storage("1Gi")
            .build(&mut stack)
            .err(),
        Some(missing("storage_class"))
    );
    assert_eq!(
        LocalDirVolumeClaim::create(root, "c")
            .namespace("n")
            .storage("1Gi")
            .storage_class("local")
            .build(&mut stack)
            .err(),
        Some(missing("volume_name"))
    );
    assert_eq!(stack.len(), 1);
}

#[test]
fn storage_consumer_without_volume_claim_leaves_no_remnants() {
    let mut stack = Stack::new("root");
    let ns = stack.create_child(stack.root(), "ns").unwrap();
    let before = stack.emit();
    let made = Postgres::create(ns, "db")
        .namespace("default")
        .db_name("gitea")
        .user("gitea")
        .password("gitea")
        .build(&mut stack);
    assert_eq!(made.err(), Some(missing("volume_claim")));
    assert_eq!(stack.len(), 2);
    assert_eq!(stack.children(ns), Vec::<Handle>::new());
    let after = stack.emit();
    assert_eq!(before.declarations.len(), 0);
    assert_eq!(after.declarations.len(), 0);
    assert_eq!(after.edges.len(), 0);
    assert!(stack.create_child(ns, "db").is_ok());
}

#[test]
fn second_build_is_refused() {
    let mut stack = Stack::new("root");
    let mut builder = Memcached::create(stack.root(), "cache");
    builder.namespace("default").memory_limit("64Mi");
    assert!(builder.build(&mut stack).is_ok());
    assert_eq!(builder.build(&mut stack).err(), Some(GraphError::AlreadyBuilt));
    assert_eq!(stack.len(), 4);
}

#[test]
fn build_after_a_failed_build_is_refused() {
    let mut stack = Stack::new("root");
    let mut builder = Memcached::create(stack.root(), "cache");
    builder.namespace("default");
    assert_eq!(builder.build(&mut stack).err(), Some(missing("memory_limit")));
    builder.memory_limit("64Mi");
    assert_eq!(builder.build(&mut stack).err(), Some(GraphError::AlreadyBuilt));
    assert_eq!(stack.len(), 1);
}

#[test]
fn every_kind_is_built_once() {
    let mut stack = Stack::new("root");
    let root = stack.root();
    let mut gitea = Gitea::create(root, "g");
    assert!(gitea.build(&mut stack).is_err());
    assert_eq!(gitea.build(&mut stack).err(), Some(GraphError::AlreadyBuilt));
    let mut jenkins = Jenkins::create(root, "j");
    assert!(jenkins.build(&mut stack).is_err());
    assert_eq!(jenkins.build(&mut stack).err(), Some(GraphError::AlreadyBuilt));
    let mut postgres = Postgres::create(root, "p");
    assert!(postgres.build(&mut stack).is_err());
    assert_eq!(postgres.build(&mut stack).err(), Some(GraphError::AlreadyBuilt));
    let mut ingress = Ingress::create(root, "i");
    assert!(ingress.build(&mut stack).is_err());
    assert_eq!(ingress.build(&mut stack).err(), Some(GraphError::AlreadyBuilt));
    let mut volume = LocalVolume::create(root, "v");
    assert!(volume.build(&mut stack).is_err());
    assert_eq!(volume.build(&mut stack).err(), Some(GraphError::AlreadyBuilt));
    let mut dir_volume = LocalDirVolume::create(root, "d");
    assert!(dir_volume.build(&mut stack).is_err());
    assert_eq!(dir_volume.build(&mut stack).err(), Some(GraphError::AlreadyBuilt));
    let mut claim = LocalVolumeClaim::create(root, "c");
    assert!(claim.build(&mut stack).is_err());
    assert_eq!(claim.build(&mut stack).err(), Some(GraphError::AlreadyBuilt));
    let mut dir_claim = LocalDirVolumeClaim::create(root, "e");
    assert!(dir_claim.build(&mut stack).is_err());
    assert_eq!(dir_claim.build(&mut stack).err(), Some(GraphError::AlreadyBuilt));
    assert_eq!(stack.len(), 1);
}

#[test]
fn already_built_comes_before_missing_field() {
    let mut stack = Stack::new("root");
    let mut builder = Postgres::create(stack.root(), "db");
    assert_eq!(builder.build(&mut stack).err(), Some(missing("namespace")));
    assert_eq!(builder.build(&mut stack).err(), Some(GraphError::AlreadyBuilt));
}

#[test]
fn missing_field_comes_before_unknown_scope() {
    let mut stack = Stack::new("root");
    let nowhere = Handle { index: 12 };
    assert_eq!(
        Memcached::create(nowhere, "cache").build(&mut stack).err(),
        Some(missing("namespace"))
    );
    assert_eq!(
        Memcached::create(nowhere, "cache")
            .namespace("default")
            .memory_limit("64Mi")
            .build(&mut stack)
            .err(),
        Some(GraphError::UnknownNode)
    );
    assert_eq!(stack.len(), 1);
}

#[test]
fn construct_under_a_resource_is_refused() {
    let mut stack = Stack::new("root");
    let pod = stack
        .declare_resource(stack.root(), "kubernetes_pod", "nginx", Block::new())
        .unwrap();
    let made = Memcached::create(pod, "cache")
        .namespace("default")
        .memory_limit("64Mi")
        .build(&mut stack);
    assert_eq!(made.err(), Some(GraphError::UnknownNode));
    assert_eq!(stack.len(), 2);
}

#[test]
fn second_construct_of_the_same_name_is_refused() {
    let mut stack = Stack::new("root");
    let root = stack.root();
    assert!(Memcached::create(root, "cache")
        .namespace("default")
        .memory_limit("64Mi")
        .build(&mut stack)
        .is_ok());
    let again = Memcached::create(root, "cache")
        .namespace("default")
        .memory_limit("64Mi")
        .build(&mut stack);
    assert_eq!(again.err(), Some(GraphError::DuplicateName));
    let other_kind = Postgres::create(root, "cache")
        .namespace("default")
        .db_name("d")
        .user("u")
        .password("p")
        .volume_claim("claim")
        .build(&mut stack);
    assert_eq!(other_kind.err(), Some(GraphError::DuplicateName));
    assert_eq!(stack.len(), 4);
}

#[test]
fn later_setting_of_a_field_wins() {
    let mut stack = Stack::new("root");
    Memcached::create(stack.root(), "cache")
        .namespace("first")
        .memory_limit("64Mi")
        .namespace("second")
        .build(&mut stack)
        .unwrap();
    let service = body_of(&stack, 2);
    assert_eq!(text(block(service, "metadata"), "namespace"), &literal("second"));
}

#[test]
fn claim_of_a_volume_carries_its_reference() {
    let mut stack = Stack::new("root");
    let ns = stack.create_child(stack.root(), "ns").unwrap();
    let vol = LocalDirVolume::create(ns, "vol")
        .storage("10Gi")
        .storage_class("local-storage")
        .mount_path("/mnt/data")
        .node("node-1")
        .build(&mut stack)
        .unwrap();
    let claim = vol.claim("data").namespace("default").build(&mut stack).unwrap();
    assert_eq!(claim.volume_name(), vol.volume_ref());
    assert!(vol.volume_ref().is_reference());
    assert_eq!(
        vol.volume_ref().render(),
        "${kubernetes_persistent_volume.pv-local-2dc0d255ec97d7d2af0abda7d34594b5fba939.metadata.0.name}"
    );
    let database = Postgres::create(ns, "db")
        .namespace("default")
        .db_name("gitea")
        .user("gitea")
        .password("secret")
        .volume_claim(claim.claim())
        .build(&mut stack)
        .unwrap();
    assert_eq!(database.volume_claim(), claim.claim());
    assert_eq!(
        claim.claim().render(),
        "${kubernetes_persistent_volume_claim.claim-caf6ea86e9f23ba377a4351625d3ccc9ee7c2d2.metadata.0.name}"
    );

    // What the tree records is what the constructs expose.
    let claim_body = body_of(&stack, 5);
    assert_eq!(text(block(claim_body, "spec"), "volume_name"), vol.volume_ref());
    let workload = body_of(&stack, 8);
    let pod = block(block(block(workload, "spec"), "template"), "spec");
    let claimed = text(block(block(pod, "volume"), "persistent_volume_claim"), "claim_name");
    assert_eq!(claimed, claim.claim());

    // The chain shows in the emitted references: the claim points to the
    // volume, and the workload of the database to the claim.
    let emitted = stack.emit();
    assert_eq!(emitted.declarations.len(), 4);
    let from_claim: Vec<_> = emitted.edges.iter().filter(|edge| edge.from == 1).collect();
    assert_eq!(from_claim.len(), 1);
    assert_eq!(from_claim[0].to, Some(0));
    assert_eq!(
        &ValueCell::<String>::Reference(
            from_claim[0].node.clone(),
            from_claim[0].attribute.clone()
        ),
        vol.volume_ref()
    );
    let from_workload: Vec<_> = emitted.edges.iter().filter(|edge| edge.from == 3).collect();
    assert_eq!(from_workload.len(), 2);
    assert_eq!(from_workload[0].to, Some(2));
    assert_eq!(from_workload[1].to, Some(1));
    assert_eq!(
        &ValueCell::<String>::Reference(
            from_workload[1].node.clone(),
            from_workload[1].attribute.clone()
        ),
        claim.claim()
    );
}

#[test]
fn output_cell_reads_the_same_every_time() {
    let mut stack = Stack::new("root");
    let vol = LocalVolume::create(stack.root(), "vol")
        .storage("10Gi")
        .storage_class("local-storage")
        .mount_path("/mnt/disk")
        .node("node-1")
        .build(&mut stack)
        .unwrap();
    let first = vol.volume_ref().clone();
    let claim = vol
        .claim("data")
        .namespace("default")
        .storage("10Gi")
        .storage_class("local-storage")
        .build(&mut stack)
        .unwrap();
    assert_eq!(vol.volume_ref(), &first);
    assert_eq!(vol.volume_ref(), vol.volume_ref());
    assert_eq!(claim.claim(), claim.claim());
    assert_eq!(claim.volume_name(), &first);
    assert_ne!(claim.claim(), vol.volume_ref());
}

#[test]
fn claim_of_a_disk_volume_still_needs_size_and_class() {
    let mut stack = Stack::new("root");
    let vol = LocalVolume::create(stack.root(), "vol")
        .storage("10Gi")
        .storage_class("local-storage")
        .mount_path("/mnt/disk")
        .node("node-1")
        .build(&mut stack)
        .unwrap();
    let made = vol.claim("data").namespace("default").build(&mut stack);
    assert_eq!(made.err(), Some(missing("storage")));
    assert_eq!(stack.len(), 3);
}

#[test]
fn claim_builder_may_be_overridden() {
    let mut stack = Stack::new("root");
    let vol = LocalDirVolume::create(stack.root(), "vol")
        .storage("10Gi")
        .storage_class("local-storage")
        .mount_path("/mnt/data")
        .node("node-1")
        .build(&mut stack)
        .unwrap();
    vol.claim("data").namespace("default").storage("5Gi").build(&mut stack).unwrap();
    let claim_body = body_of(&stack, 4);
    let requests = match block(block(claim_body, "spec"), "resources").find("requests") {
        Some(Attr::Table(table)) => table,
        _ => panic!("no requests"),
    };
    assert_eq!(requests.pairs[0].key, "storage");
    assert_eq!(requests.pairs[0].value, literal("5Gi"));
    assert_eq!(
        text(block(claim_body, "spec"), "storage_class_name"),
        &literal("local-storage")
    );
}

#[test]
fn directory_volume_declares_a_host_path() {
    let mut stack = Stack::new("root");
    let vol = LocalDirVolume::create(stack.root(), "data")
        .storage("10Gi")
        .storage_class("local-storage")
        .mount_path("/mnt/data")
        .node("node-1")
        .build(&mut stack)
        .unwrap();
    assert_eq!(vol.node(), Handle { index: 1 });
    assert_eq!(stack.len(), 3);
    assert_eq!(kind_of(&stack, 2), "kubernetes_persistent_volume");
    let node = stack.node(Handle { index: 2 }).unwrap();
    assert_eq!(node.name, "pv-local");
    assert_eq!(node.parent, Some(1));
    let body = body_of(&stack, 2);
    assert_eq!(text(block(body, "metadata"), "name"), &literal("data-local-pv"));
    let spec = block(body, "spec");
    assert_eq!(text(spec, "volume_mode"), &literal("Filesystem"));
    assert_eq!(text(spec, "persistent_volume_reclaim_policy"), &literal("Delete"));
    assert_eq!(text(spec, "storage_class_name"), &literal("local-storage"));
    let source = block(block(spec, "persistent_volume_source"), "host_path");
    assert_eq!(text(source, "path"), &literal("/mnt/data"));
    assert_eq!(text(source, "type"), &literal("DirectoryOrCreate"));
    let expression = block(
        block(block(block(spec, "node_affinity"), "required"), "node_selector_term"),
        "match_expressions",
    );
    assert_eq!(text(expression, "key"), &literal("kubernetes.io/hostname"));
    assert_eq!(text(expression, "operator"), &literal("In"));
    match expression.find("values") {
        Some(Attr::Texts(list)) => assert_eq!(list.items, vec![literal("node-1")]),
        _ => panic!("no values"),
    }
    match spec.find("capacity") {
        Some(Attr::Table(table)) => {
            assert_eq!(table.pairs.len(), 1);
            assert_eq!(table.pairs[0].key, "storage");
            assert_eq!(table.pairs[0].value, literal("10Gi"));
        }
        _ => panic!("no capacity"),
    }
    match spec.find("access_modes") {
        Some(Attr::Texts(list)) => assert_eq!(list.items, vec![literal("ReadWriteOnce")]),
        _ => panic!("no access modes"),
    }
}

#[test]
fn disk_volume_declares_a_local_path() {
    let mut stack = Stack::new("root");
    LocalVolume::create(stack.root(), "disk")
        .storage("1Ti")
        .storage_class("fast")
        .mount_path("/mnt/disk")
        .node("node-2")
        .build(&mut stack)
        .unwrap();
    let spec = block(body_of(&stack, 2), "spec");
    let source = block(block(spec, "persistent_volume_source"), "local");
    assert_eq!(text(source, "path"), &literal("/mnt/disk"));
    assert!(source.find("type").is_none());
    assert!(block(spec, "persistent_volume_source").find("host_path").is_none());
}

#[test]
fn claim_declares_what_it_asks_for() {
    let mut stack = Stack::new("root");
    let claim = LocalVolumeClaim::create(stack.root(), "data")
        .namespace("default")
        .storage("10Gi")
        .storage_class("local-storage")
        .volume_name("the-volume")
        .build(&mut stack)
        .unwrap();
    assert_eq!(claim.node(), Handle { index: 1 });
    assert_eq!(kind_of(&stack, 2), "kubernetes_persistent_volume_claim");
    assert_eq!(stack.node(Handle { index: 2 }).unwrap().name, "claim");
    let body = body_of(&stack, 2);
    assert_eq!(text(block(body, "metadata"), "namespace"), &literal("default"));
    assert_eq!(text(block(body, "metadata"), "name"), &literal("data-pvc"));
    assert_eq!(text(block(body, "spec"), "volume_name"), &literal("the-volume"));
    assert_eq!(claim.volume_name(), &literal("the-volume"));
    assert!(claim.claim().is_reference());
}

#[test]
fn gitea_defaults_what_was_not_set() {
    let mut stack = Stack::new("root");
    let gitea = Gitea::create(stack.root(), "git")
        .namespace("default")
        .db_name("gitea")
        .db_user("gitea")
        .db_password("secret")
        .root_user("root")
        .root_passwd("hunter2")
        .root_email("root@example.org")
        .volume_claim("claim")
        .build(&mut stack)
        .unwrap();
    assert_eq!(gitea.node(), Handle { index: 1 });
    assert_eq!(stack.len(), 7);
    let settings = match body_of(&stack, 4).find("data") {
        Some(Attr::Table(table)) => table,
        _ => panic!("no data"),
    };
    let value = |key: &str| -> ValueCell<String> {
        settings.pairs.iter().find(|pair| pair.key == key).unwrap().value.clone()
    };
    assert_eq!(settings.pairs.len(), 14);
    assert_eq!(value("GITEA__server__ROOT_URL"), literal("https://%(DOMAIN)s/"));
    assert_eq!(value("GITEA__server__DOMAIN"), literal("localhost"));
    assert_eq!(value("GITEA__database__HOST"), literal("localhost"));
    assert_eq!(value("GITEA__cache__HOST"), literal("localhost"));
    assert_eq!(value("GITEA__database__NAME"), literal("gitea"));
    assert_eq!(value("GITEA__database__PASSWD"), literal("secret"));
    assert_eq!(value("USER_UID"), literal("1000"));
    let config = gitea.ingress();
    assert_eq!(config.path, "/");
    assert_eq!(config.service_name, "git-service");
    assert_eq!(config.service_port, 3000);
    let scripts = match body_of(&stack, 5).find("data") {
        Some(Attr::Table(table)) => table,
        _ => panic!("no data"),
    };
    assert_eq!(scripts.pairs[0].key, "init.sh");
    assert_eq!(scripts.pairs[0].value, literal(""));
    assert_eq!(scripts.pairs[1].key, "migrate.sh");
}

#[test]
fn gitea_declares_its_parts_in_order() {
    let mut stack = Stack::new("root");
    Gitea::create(stack.root(), "git")
        .namespace("default")
        .path("/git")
        .domain("example.org")
        .cache_host("cache:11211")
        .db_host("db:5432")
        .db_name("gitea")
        .db_user("gitea")
        .db_password("secret")
        .root_user("root")
        .root_passwd("hunter2")
        .root_email("root@example.org")
        .volume_claim("claim")
        .init_script("echo init")
        .migrate_script("echo migrate")
        .build(&mut stack)
        .unwrap();
    let kinds: Vec<&str> = (2..7).map(|index| kind_of(&stack, index)).collect();
    assert_eq!(
        kinds,
        vec![
            "kubernetes_service",
            "kubernetes_secret",
            "kubernetes_config_map",
            "kubernetes_secret",
            "kubernetes_stateful_set"
        ]
    );
    let names: Vec<&str> =
        (2..7).map(|index| stack.node(Handle { index }).unwrap().name.as_str()).collect();
    assert_eq!(
        names,
        vec!["gitea", "gitea-init-root-config", "gitea-config", "gitea-init-config", "gitea"]
    );
    let service = body_of(&stack, 2);
    assert_eq!(text(block(service, "metadata"), "name"), &literal("git-service"));
    match block(service, "spec").find("selector") {
        Some(Attr::Table(table)) => assert_eq!(table.pairs[0].value, literal("gitea-git")),
        _ => panic!("no selector"),
    }
    match block(block(service, "spec"), "port").find("port") {
        Some(Attr::Number(port)) => assert_eq!(*port, 3000),
        _ => panic!("no port"),
    }
    let scripts = body_of(&stack, 5);
    assert_eq!(text(scripts, "type"), &literal("Opaque"));
    assert_eq!(text(block(scripts, "metadata"), "name"), &literal("git-init"));
    match scripts.find("data") {
        Some(Attr::Table(table)) => {
            assert_eq!(table.pairs[0].value, literal("echo init"));
            assert_eq!(table.pairs[1].value, literal("echo migrate"));
        }
        _ => panic!("no data"),
    }
    let workload = block(body_of(&stack, 6), "spec");
    let service_name: ValueCell<String> =
        stack.reference(Handle { index: 2 }, "metadata.0.name").unwrap();
    assert_eq!(text(workload, "service_name"), &service_name);
    let pod = block(block(workload, "template"), "spec");
    match pod.find("init_container") {
        Some(Attr::Blocks(containers)) => {
            assert_eq!(containers.len(), 2);
            assert_eq!(text(&containers[0], "name"), &literal("init"));
            assert_eq!(text(&containers[1], "name"), &literal("init-gitea"));
            match containers[1].find("env_from") {
                Some(Attr::Blocks(sources)) => assert_eq!(sources.len(), 2),
                _ => panic!("no environment"),
            }
        }
        _ => panic!("no init containers"),
    }
    match pod.find("volume") {
        Some(Attr::Blocks(volumes)) => {
            assert_eq!(volumes.len(), 2);
            assert_eq!(
                text(block(&volumes[0], "persistent_volume_claim"), "claim_name"),
                &literal("claim")
            );
            let scripts_name: ValueCell<String> =
                stack.reference(Handle { index: 5 }, "metadata.0.name").unwrap();
            assert_eq!(text(block(&volumes[1], "secret"), "secret_name"), &scripts_name);
        }
        _ => panic!("no volumes"),
    }
    match block(pod, "container").find("port") {
        Some(Attr::Blocks(ports)) => {
            assert_eq!(ports.len(), 2);
            assert_eq!(text(&ports[1], "name"), &literal("ssh"));
        }
        _ => panic!("no ports"),
    }
}

#[test]
fn jenkins_declares_its_parts_in_order() {
    let mut stack = Stack::new("root");
    let jenkins = Jenkins::create(stack.root(), "ci")
        .namespace("default")
        .path("/ci")
        .domain("example.org")
        .plugins_script("echo plugins")
        .build(&mut stack)
        .unwrap();
    assert_eq!(stack.len(), 9);
    let kinds: Vec<&str> = (2..9).map(|index| kind_of(&stack, index)).collect();
    assert_eq!(
        kinds,
        vec![
            "kubernetes_cluster_role",
            "kubernetes_service_account",
            "kubernetes_cluster_role_binding",
            "kubernetes_secret",
            "kubernetes_config_map",
            "kubernetes_deployment",
            "kubernetes_service"
        ]
    );
    let role_name: ValueCell<String> =
        stack.reference(Handle { index: 2 }, "metadata.0.name").unwrap();
    let binding = body_of(&stack, 4);
    assert_eq!(text(block(binding, "role_ref"), "name"), &role_name);
    assert_eq!(text(block(binding, "subject"), "name"), &role_name);
    assert_eq!(text(block(binding, "subject"), "namespace"), &literal("default"));
    match body_of(&stack, 5).find("data") {
        Some(Attr::Table(table)) => {
            assert_eq!(table.pairs[0].key, "casc.yaml");
            assert_eq!(
                table.pairs[0].value,
                literal("\nunclassified:\n  location:\n    url: https://example.org/ci\n")
            );
            assert_eq!(table.pairs[1].value, literal("echo plugins"));
        }
        _ => panic!("no data"),
    }
    match body_of(&stack, 6).find("data") {
        Some(Attr::Table(table)) => {
            assert_eq!(table.pairs[0].value, literal("--prefix=/ci"));
            assert_eq!(
                table.pairs[1].value,
                literal("-Djenkins.install.runSetupWizard=false -Dcasc.reload.token=ci")
            );
        }
        _ => panic!("no data"),
    }
    let pod = block(block(block(body_of(&stack, 7), "spec"), "template"), "spec");
    match block(pod, "security_context").find("run_as_non_root") {
        Some(Attr::Flag(flag)) => assert!(*flag),
        _ => panic!("no flag"),
    }
    let probe = block(block(pod, "container"), "liveness_probe");
    assert_eq!(text(block(probe, "http_get"), "path"), &literal("/ci/login"));
    let config = jenkins.ingress();
    assert_eq!(config.path, "/ci");
    assert_eq!(config.service_name, "ci-service");
    assert_eq!(config.service_port, 8080);
}

#[test]
fn postgres_probes_as_its_user() {
    let mut stack = Stack::new("root");
    let user: ValueCell<String> = stack.reference(stack.root(), "user").unwrap();
    Postgres::create(stack.root(), "db")
        .namespace("default")
        .db_name("gitea")
        .user(&user)
        .password("secret")
        .volume_claim("claim")
        .build(&mut stack)
        .unwrap();
    assert_eq!(kind_of(&stack, 2), "kubernetes_service");
    assert_eq!(kind_of(&stack, 3), "kubernetes_stateful_set");
    assert_eq!(text(block(body_of(&stack, 2), "metadata"), "name"), &literal("postgres-db"));
    let container = block(
        block(block(block(body_of(&stack, 3), "spec"), "template"), "spec"),
        "container",
    );
    assert_eq!(text(container, "image"), &literal("postgres:15.2-alpine"));
    let command = match block(block(container, "readiness_probe"), "exec").find("command") {
        Some(Attr::Texts(list)) => &list.items,
        _ => panic!("no command"),
    };
    assert_eq!(
        command,
        &vec![
            literal("psql"),
            literal("-w"),
            literal("-U"),
            user.clone(),
            literal("-d"),
            literal("gitea"),
            literal("-c"),
            literal("SELECT 1")
        ]
    );
    match container.find("env") {
        Some(Attr::Blocks(variables)) => {
            assert_eq!(variables.len(), 3);
            assert_eq!(text(&variables[1], "name"), &literal("POSTGRES_USER"));
            assert_eq!(text(&variables[1], "value"), &user);
        }
        _ => panic!("no environment"),
    }
    let liveness = block(container, "liveness_probe");
    match liveness.find("failure_threshold") {
        Some(Attr::Number(count)) => assert_eq!(*count, 10),
        _ => panic!("no threshold"),
    }
}

#[test]
fn memcached_asks_for_its_memory() {
    let mut stack = Stack::new("root");
    Memcached::create(stack.root(), "cache")
        .namespace("default")
        .memory_limit("64Mi")
        .build(&mut stack)
        .unwrap();
    assert_eq!(kind_of(&stack, 2), "kubernetes_service");
    assert_eq!(kind_of(&stack, 3), "kubernetes_deployment");
    let container = block(
        block(block(block(body_of(&stack, 3), "spec"), "template"), "spec"),
        "container",
    );
    match block(container, "resources").find("requests") {
        Some(Attr::Table(table)) => {
            assert_eq!(table.pairs[0].key, "memory");
            assert_eq!(table.pairs[0].value, literal("64Mi"));
        }
        _ => panic!("no requests"),
    }
    match block(container, "port").find("container_port") {
        Some(Attr::Number(port)) => assert_eq!(*port, 11211),
        _ => panic!("no port"),
    }
    assert_eq!(
        text(block(block(container, "liveness_probe"), "tcp_socket"), "port"),
        &literal("11211")
    );
}

#[test]
fn ingress_leads_to_each_service() {
    let mut stack = Stack::new("root");
    let services = vec![
        IngressServiceConfig {
            path: "/".to_string(),
            service_name: "git-service".to_string(),
            service_port: 3000,
        },
        IngressServiceConfig {
            path: "/ci".to_string(),
            service_name: "ci-service".to_string(),
            service_port: 8080,
        },
    ];
    let ingress = Ingress::create(stack.root(), "front")
        .namespace("default")
        .services(services)
        .build(&mut stack)
        .unwrap();
    assert_eq!(ingress.node(), Handle { index: 1 });
    assert_eq!(kind_of(&stack, 2), "kubernetes_ingress_v1");
    assert_eq!(stack.node(Handle { index: 2 }).unwrap().name, "ingress");
    let body = body_of(&stack, 2);
    assert_eq!(text(block(body, "metadata"), "name"), &literal("front-ingress"));
    let http = block(block(block(body, "spec"), "rule"), "http");
    match http.find("path") {
        Some(Attr::Blocks(paths)) => {
            assert_eq!(paths.len(), 2);
            assert_eq!(text(&paths[0], "path_type"), &literal("Prefix"));
            assert_eq!(text(&paths[0], "path"), &literal("/"));
            assert_eq!(text(&paths[1], "path"), &literal("/ci"));
            let service = block(block(&paths[1], "backend"), "service");
            assert_eq!(text(service, "name"), &literal("ci-service"));
            match block(service, "port").find("number") {
                Some(Attr::Number(port)) => assert_eq!(*port, 8080),
                _ => panic!("no port"),
            }
        }
        _ => panic!("no paths"),
    }
}

#[test]
fn ingress_without_services_has_no_paths() {
    let mut stack = Stack::new("root");
    Ingress::create(stack.root(), "front")
        .namespace("default")
        .services(Vec::new())
        .build(&mut stack)
        .unwrap();
    let http = block(block(block(body_of(&stack, 2), "spec"), "rule"), "http");
    match http.find("path") {
        Some(Attr::Blocks(paths)) => assert!(paths.is_empty()),
        _ => panic!("no paths"),
    }
}
