use gitserver::body::Block;
use gitserver::stack::Stack;
use gitserver::value::{Class, IntoValue, ValueCell};

#[test]
fn literal_resolves_to_its_value() {
    let cell = ValueCell::literal("10Gi".to_string());
    assert_eq!(cell.resolve_literal(), Some(&"10Gi".to_string()));
    assert!(!cell.is_reference());
    let number = ValueCell::literal(3000u64);
    assert_eq!(number.resolve_literal(), Some(&3000u64));
}

#[test]
fn reference_resolves_to_nothing() {
    let mut stack = Stack::new("root");
    let root = stack.root();
    let node = stack
        .declare_resource(root, "kubernetes_service", "web", Block::new())
        .unwrap();
    let cell: ValueCell<String> = stack.reference(node, "metadata.0.name").unwrap();
    assert_eq!(cell.resolve_literal(), None);
    assert!(cell.is_reference());
}

#[test]
fn literals_are_equal_by_value() {
    let a = ValueCell::literal("x".to_string());
    let b = ValueCell::literal("x".to_string());
    let c = ValueCell::literal("y".to_string());
    assert_eq!(a, b);
    assert_ne!(a, c);
}

#[test]
fn literal_never_equals_a_reference() {
    let stack = Stack::new("root");
    let reference: ValueCell<String> = stack.reference(stack.root(), "x").unwrap();
    assert_ne!(reference, ValueCell::literal("x".to_string()));
    assert_ne!(ValueCell::literal("x".to_string()), reference);
}

#[test]
fn literal_renders_as_itself() {
    assert_eq!(ValueCell::literal("gitea".to_string()).render(), "gitea");
    assert_eq!(ValueCell::literal(String::new()).render(), "");
}

#[test]
fn reference_to_a_resource_renders_as_an_expression() {
    let mut stack = Stack::new("root");
    let root = stack.root();
    let ns = stack.create_child(root, "ns").unwrap();
    let vol = stack.create_child(ns, "vol").unwrap();
    let pv = stack
        .declare_resource(vol, "kubernetes_persistent_volume", "pv-local", Block::new())
        .unwrap();
    let cell: ValueCell<String> = stack.reference(pv, "metadata.0.name").unwrap();
    assert_eq!(
        cell.render(),
        "${kubernetes_persistent_volume.pv-local-2dc0d255ec97d7d2af0abda7d34594b5fba939.metadata.0.name}"
    );
}

#[test]
fn reference_to_a_scope_renders_without_a_type() {
    let stack = Stack::new("root");
    let cell: ValueCell<String> = stack.reference(stack.root(), "name").unwrap();
    assert_eq!(cell.render(), "${root-dc76e9f0c006e8f919ec515c66dbba3982f785.name}");
}

#[test]
fn rendered_identifier_is_the_one_of_the_backend() {
    let mut stack = Stack::new("gitserver");
    let root = stack.root();
    let node = stack
        .declare_resource(root, "kubernetes_namespace", "gitserver", Block::new())
        .unwrap();
    let cell: ValueCell<String> = stack.reference(node, "metadata.0.name").unwrap();
    let id = tf_bindgen::Path::from(vec!["gitserver".to_string(), "gitserver".to_string()]).id();
    assert_eq!(id, "gitserver-eebd379ab2a7cf42b051a77624215675e7bb3aba");
    assert_eq!(cell.render(), format!("${{kubernetes_namespace.{id}.metadata.0.name}}"));
}

#[test]
fn reference_carries_class_and_path_of_its_node() {
    let mut stack = Stack::new("root");
    let root = stack.root();
    let node = stack
        .declare_resource(root, "kubernetes_service", "web", Block::new())
        .unwrap();
    let cell: ValueCell<String> = stack.reference(node, "spec.0.cluster_ip").unwrap();
    match cell {
        ValueCell::Reference(path, attribute) => {
            assert_eq!(attribute, "spec.0.cluster_ip");
            assert_eq!(path.segments(), &vec!["root".to_string(), "web".to_string()]);
            assert!(path.class().same(&Class::Resource("kubernetes_service".to_string())));
            assert!(!path.class().same(&Class::Scope));
            assert!(path.same(&path.clone()));
        }
        ValueCell::Literal(_) => panic!("the cell is no reference"),
    }
}

#[test]
fn texts_and_cells_become_cells() {
    assert_eq!("10Gi".into_value(), ValueCell::literal("10Gi".to_string()));
    assert_eq!("10Gi".to_string().into_value(), ValueCell::literal("10Gi".to_string()));
    assert_eq!((&"10Gi".to_string()).into_value(), ValueCell::literal("10Gi".to_string()));
    let stack = Stack::new("root");
    let reference: ValueCell<String> = stack.reference(stack.root(), "x").unwrap();
    assert_eq!((&reference).into_value(), reference);
    assert_eq!(reference.clone().into_value(), reference);
}
