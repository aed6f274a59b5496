use gitserver::body::{Block, Table, TextList};
use gitserver::construct::memcached::Memcached;
use gitserver::emit::Emission;
use gitserver::stack::{Handle, Stack};
use gitserver::value::ValueCell;

fn nodes(emitted: &Emission) -> Vec<usize> {
    emitted.declarations.iter().map(|declaration| declaration.node.index).collect()
}

fn ids(emitted: &Emission) -> Vec<String> {
    emitted.declarations.iter().map(|declaration| declaration.id.clone()).collect()
}

fn edges(emitted: &Emission) -> Vec<(usize, Option<usize>, String)> {
    emitted
        .edges
        .iter()
        .map(|edge| {
            let cell: ValueCell<String> =
                ValueCell::Reference(edge.node.clone(), edge.attribute.clone());
            (edge.from, edge.to, cell.render())
        })
        .collect()
}

#[test]
fn empty_stack_emits_nothing() {
    let stack = Stack::new("root");
    let emitted = stack.emit();
    assert!(emitted.declarations.is_empty());
    assert!(emitted.edges.is_empty());
}

#[test]
fn scopes_are_not_declared() {
    let mut stack = Stack::new("root");
    let root = stack.root();
    let ns = stack.create_child(root, "ns").unwrap();
    stack.create_child(ns, "inner").unwrap();
    assert!(stack.emit().declarations.is_empty());
}

#[test]
fn children_are_emitted_in_the_order_of_their_creation() {
    let mut stack = Stack::new("root");
    let root = stack.root();
    for name in ["c", "a", "b"] {
        stack.declare_resource(root, "kubernetes_pod", name, Block::new()).unwrap();
    }
    let emitted = stack.emit();
    assert_eq!(nodes(&emitted), vec![1, 2, 3]);
    assert_eq!(
        ids(&emitted),
        vec![
            tf_bindgen::Path::from(vec!["root".to_string(), "c".to_string()]).id(),
            tf_bindgen::Path::from(vec!["root".to_string(), "a".to_string()]).id(),
            tf_bindgen::Path::from(vec!["root".to_string(), "b".to_string()]).id(),
        ]
    );
}

#[test]
fn a_scope_is_emitted_whole_before_its_next_sibling() {
    let mut stack = Stack::new("root");
    let root = stack.root();
    let a = stack.create_child(root, "a").unwrap();
    let b = stack.create_child(root, "b").unwrap();
    let below_b = stack.declare_resource(b, "kubernetes_pod", "late", Block::new()).unwrap();
    let below_a = stack.declare_resource(a, "kubernetes_pod", "later", Block::new()).unwrap();
    let inner = stack.create_child(a, "inner").unwrap();
    let at_root = stack.declare_resource(root, "kubernetes_pod", "last", Block::new()).unwrap();
    let deep = stack.declare_resource(inner, "kubernetes_pod", "deep", Block::new()).unwrap();
    assert_eq!(
        (below_b, below_a, at_root, deep),
        (Handle { index: 3 }, Handle { index: 4 }, Handle { index: 6 }, Handle { index: 7 })
    );
    // a: later, inner: deep; b: late; last
    assert_eq!(nodes(&stack.emit()), vec![4, 7, 3, 6]);
}

#[test]
fn identifier_is_the_one_of_the_backend() {
    let mut stack = Stack::new("gitserver");
    let root = stack.root();
    stack
        .declare_resource(root, "kubernetes_storage_class", "local_storage", Block::new())
        .unwrap();
    let emitted = stack.emit();
    assert_eq!(ids(&emitted), vec!["local_storage-62adcce8c3598e83f3dd18f2b1e62b07dd78775"]);
}

#[test]
fn providers_are_declared_too() {
    let mut stack = Stack::new("root");
    let root = stack.root();
    stack
        .declare_provider(
            root,
            "registry.terraform.io/hashicorp/kubernetes",
            "=2.19.0",
            Block::new().literal("config_path", "~/.kube/config"),
        )
        .unwrap();
    let emitted = stack.emit();
    assert_eq!(nodes(&emitted), vec![1]);
    assert!(emitted.edges.is_empty());
}

#[test]
fn references_are_emitted_in_the_order_in_which_they_were_written() {
    let mut stack = Stack::new("root");
    let root = stack.root();
    let first = stack.declare_resource(root, "kubernetes_secret", "first", Block::new()).unwrap();
    let second = stack.declare_resource(root, "kubernetes_secret", "second", Block::new()).unwrap();
    let to_first: ValueCell<String> = stack.reference(first, "metadata.0.name").unwrap();
    let to_second: ValueCell<String> = stack.reference(second, "data.key").unwrap();
    let body = Block::new()
        .literal("plain", "text")
        .text("one", to_second.clone())
        .block(
            "nested",
            Block::new().texts(
                "list",
                TextList::new().literal("x").cell(to_first.clone()),
            ),
        )
        .table("table", Table::new().cell("key", to_second.clone()).literal("k", "v"))
        .block("other", Block::new().block("deep", Block::new().text("two", to_first.clone())));
    stack.declare_resource(root, "kubernetes_pod", "user", body).unwrap();
    stack
        .declare_resource(root, "kubernetes_pod", "next", Block::new().text("x", to_first.clone()))
        .unwrap();
    let emitted = stack.emit();
    assert_eq!(nodes(&emitted), vec![1, 2, 3, 4]);
    assert_eq!(
        edges(&emitted),
        vec![
            (2, Some(1), to_second.render()),
            (2, Some(0), to_first.render()),
            (2, Some(1), to_second.render()),
            (2, Some(0), to_first.render()),
            (3, Some(0), to_first.render()),
        ]
    );
    assert!(to_first.render().starts_with("${kubernetes_secret.first-"));
    assert!(to_second.render().ends_with(".data.key}"));
}

#[test]
fn emitting_twice_yields_the_same() {
    let mut stack = Stack::new("root");
    let root = stack.root();
    let ns = stack.create_child(root, "ns").unwrap();
    Memcached::create(ns, "cache")
        .namespace("default")
        .memory_limit("64Mi")
        .build(&mut stack)
        .unwrap();
    let secret = stack.declare_resource(root, "kubernetes_secret", "key", Block::new()).unwrap();
    let to_secret: ValueCell<String> = stack.reference(secret, "data.key").unwrap();
    stack
        .declare_resource(ns, "kubernetes_pod", "user", Block::new().text("key", to_secret))
        .unwrap();
    let first = stack.emit();
    let second = stack.emit();
    assert_eq!(nodes(&first), nodes(&second));
    assert_eq!(ids(&first), ids(&second));
    assert_eq!(edges(&first), edges(&second));
    assert_eq!(nodes(&first), vec![3, 4, 6, 5]);
    assert_eq!(edges(&first).len(), 1);
    assert_eq!(edges(&first)[0].0, 2);
    assert_eq!(edges(&first)[0].1, Some(3));
}

#[test]
fn reference_to_what_is_not_declared_has_no_target() {
    let mut stack = Stack::new("root");
    let root = stack.root();
    let scope = stack.create_child(root, "ns").unwrap();
    let to_scope: ValueCell<String> = stack.reference(scope, "name").unwrap();
    let mut other = Stack::new("root");
    let elsewhere = other
        .declare_resource(other.root(), "kubernetes_secret", "far", Block::new())
        .unwrap();
    let to_elsewhere: ValueCell<String> = other.reference(elsewhere, "data").unwrap();
    let own = stack.declare_resource(root, "kubernetes_secret", "near", Block::new()).unwrap();
    let to_own: ValueCell<String> = stack.reference(own, "data").unwrap();
    let later = Block::new().text("a", to_scope).text("b", to_elsewhere).text("c", to_own);
    stack.declare_resource(scope, "kubernetes_pod", "user", later).unwrap();
    let emitted = stack.emit();
    assert_eq!(nodes(&emitted), vec![3, 2]);
    let targets: Vec<(usize, Option<usize>)> =
        emitted.edges.iter().map(|edge| (edge.from, edge.to)).collect();
    assert_eq!(targets, vec![(0, None), (0, None), (0, Some(1))]);
}

#[test]
fn equal_stacks_emit_the_same() {
    let build = || {
        let mut stack = Stack::new("root");
        let root = stack.root();
        let a = stack.create_child(root, "a").unwrap();
        let pod = stack.declare_resource(a, "kubernetes_pod", "x", Block::new()).unwrap();
        let cell: ValueCell<String> = stack.reference(pod, "status").unwrap();
        stack
            .declare_resource(root, "kubernetes_service", "y", Block::new().text("pod", cell))
            .unwrap();
        stack
    };
    let first = build().emit();
    let second = build().emit();
    assert_eq!(nodes(&first), nodes(&second));
    assert_eq!(ids(&first), ids(&second));
    assert_eq!(edges(&first), edges(&second));
}
