use cc_cli::error::ConfigError;
use cc_cli::json::Json;
use cc_cli::claude_manager::ClaudeConfigManager;
use cc_cli::manager::ConfigManager;
use cc_cli::models::{
    ClaudeConfig, CodexActiveConfig, CodexConfig, GeminiActiveConfig, GeminiConfig, GlobalConfig,
    OpenCodeConfig, OpenCodeModelInfo, OpenCodeModelLimit, VertexConfig,
};
use cc_cli::sync::{codex_config_toml, gemini_env};

fn manager() -> ConfigManager {
    ConfigManager::new(
        "/home/tester",
        GlobalConfig::new(),
        ClaudeConfigManager::new(
            "/home/tester/store.json".to_string(),
            "/home/tester/settings.json".to_string(),
            ClaudeConfig::new(),
        ),
        CodexConfig::new(),
        GeminiConfig::new(),
        OpenCodeConfig::new(),
    )
}

fn text(s: &str) -> Json {
    Json::Text(s.to_string())
}

fn acme() -> ConfigManager {
    let mut m = manager();
    m.claude_mut()
        .add_site("acme".to_string(), "https://api.acme.test".to_string(), None)
        .unwrap();
    m.claude_mut().add_token("acme", "primary".to_string(), "sk-123".to_string()).unwrap();
    m
}

const VERTEX_KEYS: [&str; 5] = [
    "CLAUDE_CODE_USE_VERTEX",
    "ANTHROPIC_VERTEX_PROJECT_ID",
    "ANTHROPIC_VERTEX_BASE_URL",
    "CLAUDE_CODE_SKIP_VERTEX_AUTH",
    "CLAUDE_CODE_DISABLE_NONESSENTIAL_TRAFFIC",
];

#[test]
fn switch_then_get_active() {
    let mut m = acme();
    m.switch_claude_config("acme", "primary", None).unwrap();
    let active = m.get_active_claude_config().unwrap().unwrap();
    assert_eq!(active.token, "sk-123");
    assert_eq!(active.site_url, "https://api.acme.test");
    assert_eq!(active.site, "acme");
}

#[test]
fn removed_secret_is_not_found() {
    let mut m = acme();
    m.switch_claude_config("acme", "primary", None).unwrap();
    m.claude_mut().remove_token("acme", "primary").unwrap();
    match m.get_active_claude_config() {
        Err(ConfigError::SecretNotFound { site, name }) => {
            assert_eq!(site, "acme");
            assert_eq!(name, "primary");
        },
        _ => panic!("expected a secret-not-found error"),
    }
}

#[test]
fn merge_keeps_unrelated_settings() {
    let mut m = acme();
    m.claude_mut()
        .update_site_config("acme", Some("https://proxy.acme.test".to_string()), None, None)
        .unwrap();
    let existing = Json::Object(vec![
        ("unrelated_key".to_string(), Json::Number("42".to_string())),
        (
            "env".to_string(),
            Json::Object(vec![("SOME_OTHER_VAR".to_string(), text("x"))]),
        ),
    ]);
    let doc = m.switch_claude_config("acme", "primary", Some(existing)).unwrap();
    assert_eq!(doc.get("unrelated_key"), Some(&Json::Number("42".to_string())));
    let env = doc.get("env").unwrap();
    assert_eq!(env.get("SOME_OTHER_VAR"), Some(&text("x")));
    assert_eq!(env.get("ANTHROPIC_BASE_URL"), Some(&text("https://proxy.acme.test")));
    assert_eq!(env.get("ANTHROPIC_AUTH_TOKEN"), Some(&text("sk-123")));
    for k in VERTEX_KEYS {
        assert_eq!(env.get(k), None);
    }
}

#[test]
fn mode_switch_leaves_no_vertex_keys() {
    let mut m = acme();
    let vertex = VertexConfig {
        enabled: true,
        project_id: Some("proj".to_string()),
        base_url: Some("https://vertex.acme.test".to_string()),
        skip_auth: true,
    };
    m.claude_mut().update_site_config("acme", Some("https://direct.acme.test".to_string()), None, Some(vertex)).unwrap();
    let first = m.switch_claude_config("acme", "primary", None).unwrap();
    let env = first.get("env").unwrap();
    for k in VERTEX_KEYS {
        assert!(env.get(k).is_some());
    }
    assert_eq!(env.get("ANTHROPIC_BASE_URL"), None);

    m.claude_mut().update_site_config("acme", None, None, Some(VertexConfig::default())).unwrap();
    let second = m.switch_claude_config("acme", "primary", Some(first)).unwrap();
    let env = second.get("env").unwrap();
    for k in VERTEX_KEYS {
        assert_eq!(env.get(k), None);
    }
    assert_eq!(env.get("ANTHROPIC_BASE_URL"), Some(&text("https://direct.acme.test")));
}

#[test]
fn malformed_settings_count_as_empty() {
    let mut m = acme();
    let doc = m.switch_claude_config("acme", "primary", Some(text("not an object"))).unwrap();
    let env = doc.get("env").unwrap();
    assert_eq!(env.get("ANTHROPIC_AUTH_TOKEN"), Some(&text("sk-123")));
}

#[test]
fn top_level_owned_keys_are_stripped() {
    let mut m = acme();
    let existing = Json::Object(vec![
        ("ANTHROPIC_AUTH_TOKEN".to_string(), text("old")),
        ("theme".to_string(), text("dark")),
    ]);
    let doc = m.switch_claude_config("acme", "primary", Some(existing)).unwrap();
    assert_eq!(doc.get("ANTHROPIC_AUTH_TOKEN"), None);
    assert_eq!(doc.get("theme"), Some(&text("dark")));
}

fn codex_config() -> CodexActiveConfig {
    CodexActiveConfig {
        site: "acme".to_string(),
        site_url: "https://api.acme.test".to_string(),
        site_description: None,
        api_key_name: "main".to_string(),
        api_key: "sk-codex".to_string(),
        base_url: Some("https://api.acme.test/v1".to_string()),
        model: Some("gpt-5".to_string()),
        model_reasoning_effort: Some("high".to_string()),
        model_provider: None,
        network_access: None,
        disable_response_storage: Some(true),
        wire_api: Some("responses".to_string()),
    }
}

#[test]
fn codex_toml_text() {
    let toml = codex_config_toml(&codex_config());
    let expected = "model_provider = \"acme\"\n\
model = \"gpt-5\"\n\
model_reasoning_effort = \"high\"\n\
disable_response_storage = true\n\
\n\
[model_providers.acme]\n\
name = \"acme\"\n\
base_url = \"https://api.acme.test/v1\"\n\
wire_api = \"responses\"\n\
requires_openai_auth = true\n";
    assert_eq!(toml, expected);
}

#[test]
fn codex_regeneration_is_identical() {
    let a = codex_config();
    assert_eq!(codex_config_toml(&a), codex_config_toml(&a));
}

#[test]
fn codex_provider_override() {
    let mut a = codex_config();
    a.model_provider = Some("custom".to_string());
    a.model = None;
    a.model_reasoning_effort = None;
    a.disable_response_storage = None;
    a.base_url = None;
    a.wire_api = None;
    let expected = "model_provider = \"custom\"\n\n[model_providers.custom]\nname = \"custom\"\nrequires_openai_auth = true\n";
    assert_eq!(codex_config_toml(&a), expected);
}

#[test]
fn codex_switch_writes_both_files() {
    let mut m = manager();
    m.codex_mut().add_site("acme".to_string(), "https://api.acme.test".to_string(), None).unwrap();
    m.codex_mut().add_api_key("acme", "main".to_string(), "sk-codex".to_string()).unwrap();
    let (toml, auth) = m.switch_codex_config("acme", "main").unwrap();
    assert!(toml.starts_with("model_provider = \"acme\"\n"));
    assert_eq!(auth.get("OPENAI_API_KEY"), Some(&text("sk-codex")));
}

fn gemini_config(base_url: Option<&str>, model: Option<&str>) -> GeminiActiveConfig {
    GeminiActiveConfig {
        site: "g".to_string(),
        site_url: "https://g.test".to_string(),
        site_description: None,
        api_key_name: "k".to_string(),
        api_key: "AIza-1".to_string(),
        base_url: base_url.map(|s| s.to_string()),
        model: model.map(|s| s.to_string()),
    }
}

#[test]
fn gemini_env_text() {
    let env = gemini_env(&gemini_config(Some("https://g.test"), Some("gemini-pro")));
    assert_eq!(env, "GOOGLE_GEMINI_BASE_URL=https://g.test\nGEMINI_API_KEY=AIza-1\nGEMINI_MODEL=gemini-pro\n");
    let bare = gemini_env(&gemini_config(None, None));
    assert_eq!(bare, "GEMINI_API_KEY=AIza-1\n");
    assert_eq!(bare, gemini_env(&gemini_config(None, None)));
}

fn opencode_manager() -> ConfigManager {
    let mut m = manager();
    for name in ["alpha", "beta", "gamma"] {
        m.opencode_mut()
            .add_provider(
                name.to_string(),
                format!("https://{name}.test"),
                format!("sk-{name}"),
                None,
                None,
            )
            .unwrap();
    }
    m
}

#[test]
fn opencode_document_holds_only_cited_providers() {
    let mut m = opencode_manager();
    let doc = m.switch_opencode_roles("alpha", "beta").unwrap();
    let providers = doc.get("provider").unwrap();
    assert!(providers.get("alpha").is_some());
    assert!(providers.get("beta").is_some());
    assert_eq!(providers.get("gamma"), None);

    let doc = m.switch_opencode_config("alpha").unwrap();
    let providers = doc.get("provider").unwrap();
    assert!(providers.get("alpha").is_some());
    assert_eq!(providers.get("beta"), None);
    assert_eq!(providers.get("gamma"), None);
    assert_eq!(doc.get("autoupdate"), Some(&Json::Bool(false)));
    assert_eq!(doc.get("theme"), Some(&text("tokyonight")));
}

#[test]
fn opencode_provider_definition() {
    let mut m = opencode_manager();
    let info = OpenCodeModelInfo {
        name: "Model One".to_string(),
        limit: Some(OpenCodeModelLimit { context: Some(128000), output: None }),
    };
    m.opencode_mut().add_model("alpha", "m1".to_string(), info).unwrap();
    let doc = m.apply_opencode_to_project("alpha").unwrap();
    let alpha = doc.get("provider").unwrap().get("alpha").unwrap();
    assert_eq!(alpha.get("name"), Some(&text("alpha")));
    let options = alpha.get("options").unwrap();
    assert_eq!(options.get("baseURL"), Some(&text("https://alpha.test")));
    assert_eq!(options.get("apiKey"), Some(&text("sk-alpha")));
    assert_eq!(alpha.get("npm"), None);
    let m1 = alpha.get("models").unwrap().get("m1").unwrap();
    assert_eq!(m1.get("name"), Some(&text("Model One")));
    let limit = m1.get("limit").unwrap();
    assert_eq!(limit.get("context"), Some(&Json::Number("128000".to_string())));
    assert_eq!(limit.get("output"), None);
    assert!(m.read_global_config().active.opencode.is_none());
}

#[test]
fn error_variants() {
    let mut m = acme();
    assert!(matches!(
        m.claude_mut().add_site("acme".to_string(), "u".to_string(), None),
        Err(ConfigError::SiteExists { .. })
    ));
    assert!(matches!(
        m.claude_mut().add_token("acme", "primary".to_string(), "x".to_string()),
        Err(ConfigError::SecretExists { .. })
    ));
    assert!(matches!(m.switch_claude_config("nope", "primary", None), Err(ConfigError::SiteNotFound { .. })));
    assert!(matches!(m.switch_claude_config("acme", "nope", None), Err(ConfigError::SecretNotFound { .. })));
    assert!(m.read_global_config().active.claude.is_none());

    let mut o = opencode_manager();
    assert!(matches!(o.switch_opencode_config("delta"), Err(ConfigError::ProviderNotFound { .. })));
    assert!(matches!(o.switch_opencode_roles("alpha", "delta"), Err(ConfigError::ProviderNotFound { .. })));
    assert!(matches!(
        o.opencode_mut().add_provider("alpha".to_string(), "u".to_string(), "k".to_string(), None, None),
        Err(ConfigError::ProviderExists { .. })
    ));
    let info = OpenCodeModelInfo { name: "x".to_string(), limit: None };
    o.opencode_mut().add_model("alpha", "m".to_string(), info).unwrap();
    let again = OpenCodeModelInfo { name: "y".to_string(), limit: None };
    assert!(matches!(o.opencode_mut().add_model("alpha", "m".to_string(), again), Err(ConfigError::ModelExists { .. })));
    assert!(matches!(o.opencode_mut().delete_model("alpha", "zz"), Err(ConfigError::ModelNotFound { .. })));
    let e = ConfigError::SecretNotFound { site: "acme".to_string(), name: "k".to_string() };
    assert_eq!(e.message(), "secret 'k' does not exist in site 'acme'");
}

#[test]
fn site_updates_are_sparse() {
    let mut m = acme();
    m.claude_mut().update_site_metadata("acme", None, Some("desc".to_string())).unwrap();
    let site = m.claude().get_site("acme").unwrap();
    assert_eq!(site.metadata.url, "https://api.acme.test");
    assert_eq!(site.metadata.description, Some("desc".to_string()));
    m.claude_mut().update_token("acme", "primary", "sk-456".to_string()).unwrap();
    assert_eq!(m.claude().get_site("acme").unwrap().get_token("primary"), Some(&"sk-456".to_string()));
    m.claude_mut().remove_site("acme").unwrap();
    assert!(m.claude().get_site("acme").is_none());
    assert!(matches!(m.claude_mut().remove_site("acme"), Err(ConfigError::SiteNotFound { .. })));
}

#[test]
fn gemini_switch_and_resolve() {
    let mut m = manager();
    m.gemini_mut().add_site("g".to_string(), "https://g.test".to_string(), None).unwrap();
    m.gemini_mut().add_api_key("g", "k".to_string(), "AIza-1".to_string()).unwrap();
    m.gemini_mut().update_site_config("g", None, Some("gemini-pro".to_string())).unwrap();
    let env = m.switch_gemini_config("g", "k").unwrap();
    assert_eq!(env, "GEMINI_API_KEY=AIza-1\nGEMINI_MODEL=gemini-pro\n");
    let active = m.get_active_gemini_config().unwrap().unwrap();
    assert_eq!(active.api_key, "AIza-1");
    m.gemini_mut().delete_site("g").unwrap();
    assert!(matches!(m.get_active_gemini_config(), Err(ConfigError::SiteNotFound { .. })));
}

#[test]
fn opencode_regeneration_is_identical() {
    let mut m = opencode_manager();
    let first = m.switch_opencode_roles("alpha", "alpha").unwrap();
    let second = m.switch_opencode_roles("alpha", "alpha").unwrap();
    assert_eq!(first, second);
    let providers = first.get("provider").unwrap();
    assert!(providers.get("alpha").is_some());
    assert_eq!(providers.get("beta"), None);
}

#[test]
fn deep_merge_replaces_non_objects_and_keeps_others() {
    let mut target = Json::Object(vec![
        ("keep".to_string(), text("k")),
        ("swap".to_string(), Json::Object(vec![("inner".to_string(), text("i"))])),
    ]);
    let source = Json::Object(vec![("swap".to_string(), text("flat")), ("new".to_string(), Json::Null)]);
    cc_cli::json::deep_merge(&mut target, &source);
    assert_eq!(target.get("keep"), Some(&text("k")));
    assert_eq!(target.get("swap"), Some(&text("flat")));
    assert_eq!(target.get("new"), Some(&Json::Null));

    let mut not_object = text("x");
    cc_cli::json::deep_merge(&mut not_object, &source);
    assert_eq!(not_object, text("x"));
}
