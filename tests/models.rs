use cc_cli::json::{deep_merge, Json};
use cc_cli::claude_manager::ClaudeConfigManager;
use cc_cli::manager::ConfigManager;
use cc_cli::models::{ClaudeConfig, ClaudeSite, CodexConfig, GeminiConfig, GlobalConfig, OpenCodeConfig};

fn num(n: &str) -> Json {
    Json::Number(n.to_string())
}

fn obj(members: Vec<(&str, Json)>) -> Json {
    Json::Object(members.into_iter().map(|(k, v)| (k.to_string(), v)).collect())
}

fn empty_manager() -> ConfigManager {
    ConfigManager::new(
        "/home/tester",
        GlobalConfig::new(),
        ClaudeConfigManager::new(
            "/home/tester/store.json".to_string(),
            "/home/tester/settings.json".to_string(),
            ClaudeConfig::new(),
        ),
        CodexConfig::new(),
        GeminiConfig::new(),
        OpenCodeConfig::new(),
    )
}

#[test]
fn test_deep_merge() {
    let mut target = obj(vec![("a", num("1")), ("b", obj(vec![("c", num("2")), ("d", num("3"))]))]);
    let source = obj(vec![("b", obj(vec![("c", num("20")), ("e", num("4"))])), ("f", num("5"))]);

    deep_merge(&mut target, &source);

    assert_eq!(target.get("a"), Some(&num("1")));
    let b = target.get("b").unwrap();
    assert_eq!(b.get("c"), Some(&num("20")));
    assert_eq!(b.get("d"), Some(&num("3")));
    assert_eq!(b.get("e"), Some(&num("4")));
    assert_eq!(target.get("f"), Some(&num("5")));
}

#[test]
fn test_config_manager_creation() {
    let manager = empty_manager();
    assert!(manager.get_active_claude_config().is_ok());
}

#[test]
fn test_global_config_read_write() {
    let mut manager = empty_manager();
    let config = GlobalConfig::new();
    manager.global_config = config;

    let read_config = manager.read_global_config();
    assert_eq!(read_config.version, "3.0.0");
}

#[test]
fn test_global_config_creation() {
    let config = GlobalConfig::new();
    assert_eq!(config.version, "3.0.0");
    assert!(config.active.claude.is_none());
}

#[test]
fn test_claude_config_creation() {
    let config = ClaudeConfig::new();
    assert_eq!(config.version, "3.0.0");
    assert!(config.sites.is_empty());
}

#[test]
fn test_claude_site_operations() {
    let mut site = ClaudeSite::new(
        "https://api.example.com".to_string(),
        Some("Test Site".to_string()),
    );

    site.add_token("main".to_string(), "sk-xxx".to_string());
    assert_eq!(site.get_token("main"), Some(&"sk-xxx".to_string()));

    let removed = site.remove_token("main");
    assert_eq!(removed, Some("sk-xxx".to_string()));
    assert_eq!(site.get_token("main"), None);
}
