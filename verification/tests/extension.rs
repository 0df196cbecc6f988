use aktor::extension::{Extension, ExtensionRegistry};
use aktor::erased::types_differ;
use std::sync::Arc;

#[derive(Debug)]
struct TestExtension {
    value: i32,
}

impl Extension for TestExtension {
    fn new_extension() -> Self {
        TestExtension { value: 42 }
    }
}

#[derive(Debug)]
struct AnotherExtension {
    name: String,
}

impl Extension for AnotherExtension {
    fn new_extension() -> Self {
        AnotherExtension {
            name: "test".to_string(),
        }
    }
}

#[test]
fn test_register_and_get_extension() {
    let mut registry = ExtensionRegistry::new();
    let ext = TestExtension { value: 100 };

    registry.register(ext);

    let retrieved = registry.get::<TestExtension>();
    assert_eq!(retrieved.value, 100);
}

#[test]
fn test_multiple_extensions() {
    let mut registry = ExtensionRegistry::new();

    registry.register(TestExtension { value: 42 });
    registry.register(AnotherExtension {
        name: "hello".to_string(),
    });

    let ext1 = registry.get::<TestExtension>();
    let ext2 = registry.get::<AnotherExtension>();

    assert_eq!(ext1.value, 42);
    assert_eq!(ext2.name, "hello");
}

#[test]
fn test_get_optional_returns_none() {
    let registry = ExtensionRegistry::new();
    assert!(registry.get_optional::<TestExtension>().is_none());
}

#[test]
fn test_has_extension() {
    let mut registry = ExtensionRegistry::new();

    assert!(!registry.has::<TestExtension>());

    registry.register(TestExtension { value: 42 });

    assert!(registry.has::<TestExtension>());
}

#[test]
fn test_get_or_create() {
    let mut registry = ExtensionRegistry::new();

    // First call creates
    let ext1 = registry.get_or_create::<TestExtension>();
    assert_eq!(ext1.value, 42);

    // Second call returns same instance
    let ext2 = registry.get_or_create::<TestExtension>();
    assert_eq!(ext2.value, 42);

    // Verify it's the same Arc
    assert!(Arc::ptr_eq(&ext1, &ext2));
}

#[test]
fn test_extension_is_shared() {
    let mut registry = ExtensionRegistry::new();
    registry.register(TestExtension { value: 42 });

    let ext1 = registry.get::<TestExtension>();
    let ext2 = registry.get::<TestExtension>();

    // Both should point to the same instance
    assert!(Arc::ptr_eq(&ext1, &ext2));
}

#[test]
fn types_are_told_apart() {
    assert!(types_differ::<TestExtension, AnotherExtension>());
    assert!(!types_differ::<TestExtension, TestExtension>());
    assert!(types_differ::<u8, Box<u8>>());
    assert!(types_differ::<Arc<u8>, u8>());
}

#[test]
fn an_unregistered_type_stays_unregistered() {
    let mut registry = ExtensionRegistry::new();
    registry.register(TestExtension { value: 1 });
    assert!(!registry.has::<AnotherExtension>());
    assert!(registry.get_optional::<AnotherExtension>().is_none());
}

#[test]
fn an_extension_stays_when_another_is_registered() {
    let mut registry = ExtensionRegistry::default();
    registry.register(TestExtension { value: 7 });
    let before = registry.get::<TestExtension>();
    let other = registry.get_or_create::<AnotherExtension>();
    assert_eq!(other.name, "test");
    assert!(Arc::ptr_eq(&before, &registry.get::<TestExtension>()));
    assert!(registry.has::<AnotherExtension>());
}
