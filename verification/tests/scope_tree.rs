use gitserver::body::Block;
use gitserver::error::GraphError;
use gitserver::stack::{Handle, Role, Stack};
use gitserver::value::ValueCell;

#[test]
fn new_stack_holds_only_its_root() {
    let stack = Stack::new("gitserver");
    assert_eq!(stack.len(), 1);
    assert_eq!(stack.root(), Handle { index: 0 });
    assert_eq!(stack.name(), "gitserver");
    let root = stack.node(stack.root()).unwrap();
    assert_eq!(root.name, "gitserver");
    assert_eq!(root.path, vec!["gitserver".to_string()]);
    assert_eq!(root.parent, None);
    assert!(matches!(root.role, Role::Scope));
}

#[test]
fn child_is_appended_below_its_parent() {
    let mut stack = Stack::new("root");
    let root = stack.root();
    let ns = stack.create_child(root, "ns").unwrap();
    let below = stack.create_child(ns, "vol").unwrap();
    assert_eq!(ns, Handle { index: 1 });
    assert_eq!(below, Handle { index: 2 });
    let node = stack.node(below).unwrap();
    assert_eq!(node.name, "vol");
    assert_eq!(node.parent, Some(1));
    assert_eq!(
        node.path,
        vec!["root".to_string(), "ns".to_string(), "vol".to_string()]
    );
}

#[test]
fn second_child_of_the_same_name_is_refused() {
    let mut stack = Stack::new("root");
    let root = stack.root();
    assert!(stack.create_child(root, "ns").is_ok());
    assert_eq!(stack.create_child(root, "ns"), Err(GraphError::DuplicateName));
    assert_eq!(stack.len(), 2);
}

#[test]
fn same_name_under_another_scope_is_accepted() {
    let mut stack = Stack::new("root");
    let root = stack.root();
    let a = stack.create_child(root, "a").unwrap();
    let b = stack.create_child(root, "b").unwrap();
    assert!(stack.create_child(a, "data").is_ok());
    assert!(stack.create_child(b, "data").is_ok());
    assert_eq!(stack.len(), 5);
}

#[test]
fn child_of_an_unknown_scope_is_refused() {
    let mut stack = Stack::new("root");
    assert_eq!(
        stack.create_child(Handle { index: 7 }, "ns"),
        Err(GraphError::UnknownNode)
    );
    assert_eq!(stack.len(), 1);
}

#[test]
fn a_resource_parents_nothing() {
    let mut stack = Stack::new("root");
    let root = stack.root();
    let pod = stack
        .declare_resource(root, "kubernetes_pod", "nginx", Block::new())
        .unwrap();
    assert_eq!(stack.create_child(pod, "below"), Err(GraphError::UnknownNode));
    assert_eq!(
        stack.declare_resource(pod, "kubernetes_pod", "inner", Block::new()),
        Err(GraphError::UnknownNode)
    );
    assert_eq!(stack.len(), 2);
}

#[test]
fn resources_of_different_types_may_share_a_name() {
    let mut stack = Stack::new("root");
    let root = stack.root();
    assert!(stack
        .declare_resource(root, "kubernetes_service", "gitea", Block::new())
        .is_ok());
    assert!(stack
        .declare_resource(root, "kubernetes_stateful_set", "gitea", Block::new())
        .is_ok());
    assert!(stack.create_child(root, "gitea").is_ok());
    assert_eq!(
        stack.declare_resource(root, "kubernetes_service", "gitea", Block::new()),
        Err(GraphError::DuplicateName)
    );
    assert_eq!(stack.len(), 4);
}

#[test]
fn provider_is_declared_once() {
    let mut stack = Stack::new("root");
    let root = stack.root();
    let source = "registry.terraform.io/hashicorp/kubernetes";
    let first = stack.declare_provider(root, source, "=2.19.0", Block::new());
    assert_eq!(first, Ok(Handle { index: 1 }));
    assert_eq!(
        stack.declare_provider(root, source, "=2.20.0", Block::new()),
        Err(GraphError::DuplicateName)
    );
    match &stack.node(Handle { index: 1 }).unwrap().role {
        Role::Provider { version, .. } => assert_eq!(version, "=2.19.0"),
        _ => panic!("the node is no provider"),
    }
}

#[test]
fn children_come_in_the_order_of_their_creation() {
    let mut stack = Stack::new("root");
    let root = stack.root();
    let a = stack.create_child(root, "a").unwrap();
    let b = stack.create_child(root, "b").unwrap();
    let below_a = stack.create_child(a, "x").unwrap();
    let c = stack.create_child(root, "c").unwrap();
    assert_eq!(stack.children(root), vec![a, b, c]);
    assert_eq!(stack.children(a), vec![below_a]);
    assert_eq!(stack.children(b), Vec::<Handle>::new());
    assert_eq!(stack.children(Handle { index: 99 }), Vec::<Handle>::new());
}

#[test]
fn unknown_handle_has_no_node() {
    let stack = Stack::new("root");
    assert!(stack.node(Handle { index: 1 }).is_none());
}

#[test]
fn references_to_one_node_are_equal() {
    let mut stack = Stack::new("root");
    let root = stack.root();
    let a = stack
        .declare_resource(root, "kubernetes_service", "a", Block::new())
        .unwrap();
    let first: ValueCell<String> = stack.reference(a, "x").unwrap();
    let second: ValueCell<String> = stack.reference(a, "x").unwrap();
    assert_eq!(first, second);
    assert_eq!(first.clone(), first);
}

#[test]
fn references_to_different_nodes_differ() {
    let mut stack = Stack::new("root");
    let root = stack.root();
    let a = stack
        .declare_resource(root, "kubernetes_service", "a", Block::new())
        .unwrap();
    let b = stack
        .declare_resource(root, "kubernetes_service", "b", Block::new())
        .unwrap();
    let same_name_other_type = stack
        .declare_resource(root, "kubernetes_secret", "a", Block::new())
        .unwrap();
    let to_a: ValueCell<String> = stack.reference(a, "x").unwrap();
    let to_b: ValueCell<String> = stack.reference(b, "x").unwrap();
    let to_other: ValueCell<String> = stack.reference(same_name_other_type, "x").unwrap();
    let other_attribute: ValueCell<String> = stack.reference(a, "y").unwrap();
    assert_ne!(to_a, to_b);
    assert_ne!(to_a, to_other);
    assert_ne!(to_a, other_attribute);
}

#[test]
fn scope_and_resource_of_one_name_are_told_apart() {
    let mut stack = Stack::new("gitserver");
    let root = stack.root();
    let namespace = stack
        .declare_resource(root, "kubernetes_namespace", "gitserver", Block::new())
        .unwrap();
    let ingress = stack.create_child(root, "gitserver").unwrap();
    let to_namespace: ValueCell<String> = stack.reference(namespace, "id").unwrap();
    let to_ingress: ValueCell<String> = stack.reference(ingress, "id").unwrap();
    assert_ne!(to_namespace, to_ingress);
}

#[test]
fn reference_to_an_unknown_node_is_refused() {
    let stack = Stack::new("root");
    let made: Result<ValueCell<String>, GraphError> = stack.reference(Handle { index: 3 }, "x");
    assert_eq!(made, Err(GraphError::UnknownNode));
}

#[test]
fn reference_asks_nothing_of_the_attribute() {
    let mut stack = Stack::new("root");
    let root = stack.root();
    let made: Result<ValueCell<String>, GraphError> = stack.reference(root, "no.such.attribute");
    assert!(made.is_ok());
    let scope = stack.create_child(root, "ns").unwrap();
    let to_scope: Result<ValueCell<String>, GraphError> = stack.reference(scope, "anything");
    assert!(to_scope.unwrap().is_reference());
}

#[test]
fn error_messages_name_the_cause() {
    assert_eq!(
        GraphError::DuplicateName.message(),
        "a sibling already has this name"
    );
    assert_eq!(
        GraphError::UnknownNode.message(),
        "the node is not part of the stack"
    );
    assert_eq!(
        GraphError::missing("volume_claim").message(),
        "missing field 'volume_claim'"
    );
    assert_eq!(
        GraphError::AlreadyBuilt.message(),
        "the builder was already built"
    );
    assert_eq!(
        GraphError::missing("storage"),
        GraphError::MissingField { field: "storage".to_string() }
    );
}
