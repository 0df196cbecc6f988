use aktor::address::{ActorAddress, ActorPath, AddressError};

#[test]
fn test_actor_path_creation() {
    let path = ActorPath::user("crawler-manager").unwrap();
    assert_eq!(path.segments, vec!["user", "crawler-manager"]);
    assert_eq!(path.to_string(), "/user/crawler-manager");
    assert!(path.is_user());
    assert!(!path.is_system());
}

#[test]
fn test_actor_path_child() {
    let path = ActorPath::user("crawler").unwrap();
    let child = path.child("worker-1").unwrap();
    assert_eq!(child.to_string(), "/user/crawler/worker-1");
}

#[test]
fn test_actor_path_parent() {
    let path = ActorPath::user("crawler").unwrap();
    let child = path.child("worker-1").unwrap();
    let parent = child.parent().unwrap();
    assert_eq!(parent, path);
}

#[test]
fn test_actor_address_creation() {
    let path = ActorPath::user("crawler-manager").unwrap();
    let addr = ActorAddress::new("node1", path).unwrap();
    assert_eq!(addr.to_string(), "actor://node1/user/crawler-manager");
}

#[test]
fn test_actor_address_parsing() {
    let addr_str = "actor://node1/user/crawler-manager";
    let addr = ActorAddress::from_str(addr_str).unwrap();
    assert_eq!(addr.node_id, "node1");
    assert_eq!(addr.path.segments, vec!["user", "crawler-manager"]);
    assert_eq!(addr.to_string(), addr_str);
}

#[test]
fn test_local_address() {
    let path = ActorPath::user("test").unwrap();
    let addr = ActorAddress::local(path);
    assert!(addr.is_local(None));
}

#[test]
fn test_address_child() {
    let path = ActorPath::user("crawler").unwrap();
    let addr = ActorAddress::new("node1", path).unwrap();
    let child = addr.child("worker-1").unwrap();
    assert_eq!(child.to_string(), "actor://node1/user/crawler/worker-1");
}

#[test]
fn an_address_is_local_by_the_node_variable() {
    let path = ActorPath::user("test").unwrap();
    let addr = ActorAddress::new("node1", path).unwrap();
    assert!(addr.is_local(Some("node1")));
    assert!(!addr.is_local(Some("node2")));
    assert!(!addr.is_local(None));
}

#[test]
fn paths_without_segments_are_refused() {
    assert!(matches!(ActorPath::new(Vec::new()), Err(AddressError::EmptyPath)));
    assert_eq!(ActorPath::new(Vec::new()).unwrap_err().to_string(), "Empty actor path");
}

#[test]
fn the_first_invalid_segment_is_named() {
    let segments = vec!["user".to_string(), "a/b".to_string(), String::new()];
    match ActorPath::new(segments) {
        Err(AddressError::InvalidPathSegment(s)) => assert_eq!(s, "a/b"),
        other => panic!("unexpected {other:?}"),
    }
    assert!(matches!(ActorPath::user(""), Err(AddressError::InvalidPathSegment(_))));
    assert!(ActorPath::user("ok").unwrap().child("x/y").is_err());
}

#[test]
fn empty_nodes_are_refused() {
    let path = ActorPath::system("logger").unwrap();
    assert!(path.is_system());
    let err = ActorAddress::new("", path).unwrap_err();
    assert!(matches!(err, AddressError::EmptyNodeId));
    assert_eq!(err.to_string(), "Empty node ID");
    assert!(matches!(ActorAddress::from_str("actor:///user/a"), Err(AddressError::EmptyNodeId)));
}

#[test]
fn malformed_addresses_are_refused() {
    match ActorAddress::from_str("http://node/user/a") {
        Err(AddressError::InvalidFormat(s)) => {
            assert_eq!(s, "Address must start with 'actor://': http://node/user/a")
        }
        other => panic!("unexpected {other:?}"),
    }
    match ActorAddress::from_str("actor://node") {
        Err(AddressError::InvalidFormat(s)) => {
            assert_eq!(s, "Invalid format, expected 'actor://node_id/path': actor://node")
        }
        other => panic!("unexpected {other:?}"),
    }
    assert!(matches!(ActorAddress::from_str("actor://node/"), Err(AddressError::EmptyPath)));
    assert!(ActorPath::from_str("user/a").is_err());
}

#[test]
fn texts_read_back() {
    for text in ["actor://node1/user/a", "actor://n-2/system/b/c", "actor://x/one"] {
        let addr = ActorAddress::from_str(text).unwrap();
        assert_eq!(addr.to_string(), text);
        assert_eq!(ActorAddress::from_str(&addr.to_string()).unwrap(), addr);
    }
    let loose = ActorAddress::from_str("actor://node//user///a").unwrap();
    assert_eq!(loose.to_string(), "actor://node/user/a");
}

#[test]
fn a_slash_in_a_node_does_not_read_back() {
    let addr = ActorAddress::new("a/b", ActorPath::user("x").unwrap()).unwrap();
    let back = ActorAddress::from_str(&addr.to_string()).unwrap();
    assert_ne!(back, addr);
    assert_eq!(back.node_id, "a");
}

#[test]
fn a_single_segment_has_no_parent() {
    let root = ActorPath::root("top").unwrap();
    assert!(root.parent().is_none());
    assert_eq!(root.name(), Some("top"));
    assert!(!root.is_user());
    let child = root.child("below").unwrap();
    assert_eq!(child.parent(), Some(root));
    assert_eq!(child.name(), Some("below"));
}

#[test]
fn addresses_have_parents_and_names() {
    let addr = ActorAddress::from_str("actor://node1/user/a/b").unwrap();
    assert_eq!(addr.name(), Some("b"));
    assert_eq!(addr.parent().unwrap().to_string(), "actor://node1/user/a");
    assert_eq!(addr.clone(), addr);
    assert_ne!(addr.parent().unwrap(), addr);
}
