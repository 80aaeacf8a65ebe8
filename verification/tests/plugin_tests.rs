//! The plugin registry: registration, lookup, listing, execution.

use systrix::plugins::{ExamplePlugin, Plugin, PluginError, PluginRegistry};

#[test]
fn test_plugin_registry() {
    let mut registry = PluginRegistry::new();
    let plugin = Box::new(ExamplePlugin);

    registry.register(plugin).unwrap();

    assert!(registry.get("example").is_some());
    assert_eq!(registry.list(), vec!["example"]);

    let result = registry.execute("example", &["test".to_string()]).unwrap();
    assert!(result.contains("test"));
}

#[test]
fn test_plugin_not_found() {
    let registry: PluginRegistry<ExamplePlugin> = PluginRegistry::new();
    assert!(registry.get("missing").is_none());
    assert_eq!(
        registry.execute("missing", &[]),
        Err(PluginError::NotFound)
    );
}

#[test]
fn test_example_plugin_metadata() {
    let mut plugin = ExamplePlugin;
    assert_eq!(plugin.name(), "example");
    assert_eq!(plugin.version(), "0.1.0");
    assert!(plugin.init().is_ok());
    assert!(plugin.cleanup().is_ok());
    let out = plugin.execute(&["a".to_string(), "b".to_string()]).unwrap();
    assert_eq!(out, "Example plugin executed with args: a, b");
}

#[test]
fn test_register_replaces_same_name() {
    let mut registry = PluginRegistry::new();
    registry.register(ExamplePlugin).unwrap();
    registry.register(ExamplePlugin).unwrap();
    assert_eq!(registry.list(), vec!["example"]);
}
