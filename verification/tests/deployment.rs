use gitserver::body::{Attr, Block};
use gitserver::config::{Config, Root, Scripts, Server};
use gitserver::init;
use gitserver::stack::{Handle, Role, Stack};
use gitserver::value::ValueCell;

fn config() -> Config {
    Config {
        server: Server { node: "node-1".to_string(), domain: "git.example.org".to_string() },
        root: Root {
            user: "root".to_string(),
            passwd: "hunter2".to_string(),
            email: "root@example.org".to_string(),
        },
    }
}

fn scripts() -> Scripts {
    Scripts { init: "echo init".to_string(), migrate: "echo migrate".to_string() }
}

fn body_of(stack: &Stack, index: usize) -> &Block {
    match &stack.node(Handle { index }).unwrap().role {
        Role::Resource { body, .. } => body,
        Role::Provider { body, .. } => body,
        Role::Scope => panic!("the node is a scope"),
    }
}

fn block<'a>(parent: &'a Block, name: &str) -> &'a Block {
    match parent.find(name) {
        Some(Attr::Blocks(blocks)) => &blocks[0],
        _ => panic!("no block of that name"),
    }
}

fn text<'a>(parent: &'a Block, name: &str) -> &'a ValueCell<String> {
    match parent.find(name) {
        Some(Attr::Text(cell)) => cell,
        _ => panic!("no text of that name"),
    }
}

fn literal(value: &str) -> ValueCell<String> {
    ValueCell::literal(value.to_string())
}

fn described(stack: &Stack) -> Vec<(String, String, Option<usize>)> {
    (0..stack.len())
        .map(|index| {
            let node = stack.node(Handle { index }).unwrap();
            let kind = match &node.role {
                Role::Scope => "scope".to_string(),
                Role::Provider { version, .. } => format!("provider {version}"),
                Role::Resource { kind, .. } => kind.clone(),
            };
            (kind, node.name.clone(), node.parent)
        })
        .collect()
}

#[test]
fn deployment_holds_every_part_in_order() {
    let stack = init(config(), scripts());
    let expected: Vec<(&str, &str, Option<usize>)> = vec![
        ("scope", "gitserver", None),
        ("provider =2.19.0", "registry.terraform.io/hashicorp/kubernetes", Some(0)),
        ("kubernetes_namespace", "gitserver", Some(0)),
        ("kubernetes_storage_class", "local_storage", Some(0)),
        ("scope", "gitserver-pgdata", Some(0)),
        ("kubernetes_persistent_volume", "pv-local", Some(4)),
        ("scope", "pgdata", Some(4)),
        ("kubernetes_persistent_volume_claim", "claim", Some(6)),
        ("scope", "gitserver-giteadata", Some(0)),
        ("kubernetes_persistent_volume", "pv-local", Some(8)),
        ("scope", "giteadata", Some(8)),
        ("kubernetes_persistent_volume_claim", "claim", Some(10)),
        ("scope", "giteadb", Some(0)),
        ("kubernetes_service", "postgres", Some(12)),
        ("kubernetes_stateful_set", "postgres", Some(12)),
        ("scope", "gitea", Some(0)),
        ("kubernetes_service", "gitea", Some(15)),
        ("kubernetes_secret", "gitea-init-root-config", Some(15)),
        ("kubernetes_config_map", "gitea-config", Some(15)),
        ("kubernetes_secret", "gitea-init-config", Some(15)),
        ("kubernetes_stateful_set", "gitea", Some(15)),
        ("scope", "gitserver", Some(0)),
        ("kubernetes_ingress_v1", "ingress", Some(21)),
    ];
    let expected: Vec<(String, String, Option<usize>)> = expected
        .into_iter()
        .map(|(kind, name, parent)| (kind.to_string(), name.to_string(), parent))
        .collect();
    assert_eq!(described(&stack), expected);
}

#[test]
fn deployment_is_seeded_by_its_configuration() {
    let stack = init(config(), scripts());
    assert_eq!(text(body_of(&stack, 1), "config_path"), &literal("~/.kube/config"));
    assert_eq!(text(block(body_of(&stack, 2), "metadata"), "name"), &literal("gitserver"));
    let class = body_of(&stack, 3);
    assert_eq!(text(block(class, "metadata"), "name"), &literal("local-storage"));
    assert_eq!(text(class, "storage_provisioner"), &literal("kubernetes.io/no-provisioner"));
    assert_eq!(text(class, "volume_binding_mode"), &literal("WaitForFirstConsumer"));

    let namespace: ValueCell<String> =
        stack.reference(Handle { index: 2 }, "metadata.0.name").unwrap();
    let class_name: ValueCell<String> =
        stack.reference(Handle { index: 3 }, "metadata.0.name").unwrap();
    assert_eq!(
        namespace.render(),
        "${kubernetes_namespace.gitserver-eebd379ab2a7cf42b051a77624215675e7bb3aba.metadata.0.name}"
    );

    let volume = block(body_of(&stack, 5), "spec");
    assert_eq!(text(volume, "storage_class_name"), &class_name);
    let path = block(block(volume, "persistent_volume_source"), "host_path");
    assert_eq!(text(path, "path"), &literal("/mnt/gitea-pgdata"));
    let other = block(body_of(&stack, 9), "spec");
    let path = block(block(other, "persistent_volume_source"), "host_path");
    assert_eq!(text(path, "path"), &literal("/mnt/gitea-data"));
    let term = block(
        block(block(block(other, "node_affinity"), "required"), "node_selector_term"),
        "match_expressions",
    );
    match term.find("values") {
        Some(Attr::Texts(list)) => assert_eq!(list.items, vec![literal("node-1")]),
        _ => panic!("no values"),
    }

    let claim = body_of(&stack, 7);
    assert_eq!(text(block(claim, "metadata"), "namespace"), &namespace);
    assert_eq!(text(block(claim, "metadata"), "name"), &literal("pgdata-pvc"));
    let volume_name: ValueCell<String> =
        stack.reference(Handle { index: 5 }, "metadata.0.name").unwrap();
    assert_eq!(text(block(claim, "spec"), "volume_name"), &volume_name);
    assert_eq!(text(block(claim, "spec"), "storage_class_name"), &class_name);

    let database = block(block(block(body_of(&stack, 14), "spec"), "template"), "spec");
    let claimed = text(block(block(database, "volume"), "persistent_volume_claim"), "claim_name");
    let claim_name: ValueCell<String> =
        stack.reference(Handle { index: 7 }, "metadata.0.name").unwrap();
    assert_eq!(claimed, &claim_name);
    assert_eq!(
        claim_name.render(),
        "${kubernetes_persistent_volume_claim.claim-fa991660a29ae78718b19e35a7123a2f265cbe.metadata.0.name}"
    );

    let settings = match body_of(&stack, 18).find("data") {
        Some(Attr::Table(table)) => table,
        _ => panic!("no data"),
    };
    let value = |key: &str| -> ValueCell<String> {
        settings.pairs.iter().find(|pair| pair.key == key).unwrap().value.clone()
    };
    assert_eq!(value("GITEA__server__DOMAIN"), literal("git.example.org"));
    assert_eq!(value("GITEA__database__HOST"), literal("postgres-giteadb.gitserver:5432"));
    assert_eq!(value("GITEA__cache__HOST"), literal("localhost"));
    let account = match body_of(&stack, 17).find("data") {
        Some(Attr::Table(table)) => table,
        _ => panic!("no data"),
    };
    assert_eq!(account.pairs[1].value, literal("root"));
    assert_eq!(account.pairs[2].value, literal("hunter2"));
    assert_eq!(account.pairs[3].value, literal("root@example.org"));
    let scripts = match body_of(&stack, 19).find("data") {
        Some(Attr::Table(table)) => table,
        _ => panic!("no data"),
    };
    assert_eq!(scripts.pairs[0].value, literal("echo init"));
    assert_eq!(scripts.pairs[1].value, literal("echo migrate"));

    let server = block(block(block(body_of(&stack, 20), "spec"), "template"), "spec");
    let data_claim: ValueCell<String> =
        stack.reference(Handle { index: 11 }, "metadata.0.name").unwrap();
    assert_eq!(
        text(block(block(server, "volume"), "persistent_volume_claim"), "claim_name"),
        &data_claim
    );

    let http = block(block(block(body_of(&stack, 22), "spec"), "rule"), "http");
    match http.find("path") {
        Some(Attr::Blocks(paths)) => {
            assert_eq!(paths.len(), 1);
            assert_eq!(text(&paths[0], "path"), &literal("/"));
            let service = block(block(&paths[0], "backend"), "service");
            assert_eq!(text(service, "name"), &literal("gitea-service"));
        }
        _ => panic!("no paths"),
    }
}

#[test]
fn deployment_is_emitted_in_order() {
    let stack = init(config(), scripts());
    let emitted = stack.emit();
    let nodes: Vec<usize> =
        emitted.declarations.iter().map(|declaration| declaration.node.index).collect();
    assert_eq!(nodes, vec![1, 2, 3, 5, 7, 9, 11, 13, 14, 16, 17, 18, 19, 20, 22]);
    assert_eq!(
        emitted.declarations[3].id,
        "pv-local-d16bc2daf21e9d35b487a4c5c0927c7fab2bad5"
    );
    assert_eq!(emitted.declarations[9].id, "gitea-61368eaf92a4bcfc886b60660f88b32a93e2d1");
    assert_eq!(emitted.declarations[13].id, emitted.declarations[9].id);
    let froms: Vec<usize> = emitted.edges.iter().map(|edge| edge.from).collect();
    assert_eq!(
        froms,
        vec![3, 4, 4, 4, 5, 6, 6, 6, 7, 8, 8, 8, 9, 10, 11, 12, 13, 13, 13, 13, 13, 13, 13, 13, 14]
    );
    let targets: Vec<Option<usize>> = emitted.edges.iter().map(|edge| edge.to).collect();
    assert_eq!(
        targets,
        vec![
            Some(2),
            Some(1),
            Some(3),
            Some(2),
            Some(2),
            Some(1),
            Some(5),
            Some(2),
            Some(1),
            Some(1),
            Some(7),
            Some(4),
            Some(1),
            Some(1),
            Some(1),
            Some(1),
            Some(1),
            Some(9),
            Some(11),
            Some(11),
            Some(10),
            Some(11),
            Some(6),
            Some(12),
            Some(1),
        ]
    );
    let again = init(config(), scripts()).emit();
    assert_eq!(again.declarations.len(), emitted.declarations.len());
    assert_eq!(again.edges.len(), emitted.edges.len());
    for (first, second) in emitted.declarations.iter().zip(again.declarations.iter()) {
        assert_eq!(first.node, second.node);
        assert_eq!(first.id, second.id);
    }
    for (first, second) in emitted.edges.iter().zip(again.edges.iter()) {
        assert_eq!(first.from, second.from);
        assert_eq!(first.to, second.to);
        assert!(first.node.same(&second.node));
        assert_eq!(first.attribute, second.attribute);
    }
}
