use vstd::prelude::*;

use crate::error::ConfigError;
use crate::table::{has_name, lemma_map_push, map_of, names_distinct, Table};
use crate::text::{copy_opt, owned};

verus! {

/// Relies on chrono's `Utc::now` and `DateTime::to_rfc3339`: the current time as text.
#[verifier::external_body]
fn current_timestamp() -> String {
    chrono::Utc::now().to_rfc3339()
}

/// The format version written into every document.
pub open spec fn format_version() -> Seq<char> {
    "3.0.0"@
}

fn version_text() -> (r: String)
    ensures
        r@ == format_version(),
{
    owned("3.0.0")
}

// ---------------------------------------------------------------------------
// Global reference store
// ---------------------------------------------------------------------------

/// The shared document of active references, one slot per family.
pub struct GlobalConfig {
    pub version: String,
    pub active: ActiveConfigs,
    pub metadata: ConfigMetadata,
}

/// One optional active reference per family.
pub struct ActiveConfigs {
    pub claude: Option<ClaudeActiveReference>,
    pub codex: Option<CodexActiveReference>,
    pub gemini: Option<GeminiActiveReference>,
    pub opencode: Option<OpenCodeActiveReference>,
}

/// The active Anthropic selection: a site and one of its tokens.
pub struct ClaudeActiveReference {
    pub site: String,
    pub token_name: String,
}

/// When the global document was created and last changed.
pub struct ConfigMetadata {
    pub created_at: String,
    pub updated_at: String,
}

impl Default for ActiveConfigs {
    fn default() -> (r: Self)
        ensures
            r.claude is None,
            r.codex is None,
            r.gemini is None,
            r.opencode is None,
    {
        ActiveConfigs { claude: None, codex: None, gemini: None, opencode: None }
    }
}

impl Default for ConfigMetadata {
    fn default() -> Self {
        ConfigMetadata { created_at: current_timestamp(), updated_at: current_timestamp() }
    }
}

impl GlobalConfig {
    /// A document with no active reference.
    pub fn new() -> (r: Self)
        ensures
            r.version@ == format_version(),
            r.active.claude is None,
            r.active.codex is None,
            r.active.gemini is None,
            r.active.opencode is None,
    {
        GlobalConfig {
            version: version_text(),
            active: ActiveConfigs::default(),
            metadata: ConfigMetadata::default(),
        }
    }

    /// Stamps the document as changed now.
    pub fn update_timestamp(&mut self)
        ensures
            final(self).version == old(self).version,
            final(self).active == old(self).active,
            final(self).metadata.created_at == old(self).metadata.created_at,
    {
        self.metadata.updated_at = current_timestamp();
    }
}

// ---------------------------------------------------------------------------
// Anthropic
// ---------------------------------------------------------------------------

/// The Anthropic credential store.
pub struct ClaudeConfig {
    pub version: String,
    pub sites: Table<ClaudeSite>,
}

/// An Anthropic site: metadata, named tokens and settings.
pub struct ClaudeSite {
    pub metadata: SiteMetadata,
    pub tokens: Table<String>,
    pub config: ClaudeSiteConfig,
}

/// Descriptive data of a site.
pub struct SiteMetadata {
    pub url: String,
    pub description: Option<String>,
    pub created_at: String,
    pub updated_at: String,
}

/// Settings of an Anthropic site.
pub struct ClaudeSiteConfig {
    pub base_url: Option<String>,
    pub model: Option<String>,
    pub vertex: VertexConfig,
}

/// The Vertex mode of an Anthropic site.
pub struct VertexConfig {
    pub enabled: bool,
    pub project_id: Option<String>,
    pub base_url: Option<String>,
    pub skip_auth: bool,
}

/// A resolved Anthropic selection.
pub struct ClaudeActiveConfig {
    pub site: String,
    pub site_url: String,
    pub site_description: Option<String>,
    pub token_name: String,
    pub token: String,
    pub base_url: Option<String>,
    pub model: Option<String>,
    pub vertex: VertexConfig,
}

impl Default for VertexConfig {
    fn default() -> (r: Self)
        ensures
            !r.enabled,
            r.project_id is None,
            r.base_url is None,
            !r.skip_auth,
    {
        VertexConfig { enabled: false, project_id: None, base_url: None, skip_auth: false }
    }
}

impl VertexConfig {
    /// A copy of these settings.
    pub fn copy(&self) -> (r: Self)
        ensures
            r == *self,
    {
        VertexConfig {
            enabled: self.enabled,
            project_id: copy_opt(&self.project_id),
            base_url: copy_opt(&self.base_url),
            skip_auth: self.skip_auth,
        }
    }
}

impl Default for ClaudeSiteConfig {
    fn default() -> (r: Self)
        ensures
            r.base_url is None,
            r.model is None,
            !r.vertex.enabled,
            r.vertex.project_id is None,
            r.vertex.base_url is None,
            !r.vertex.skip_auth,
    {
        ClaudeSiteConfig { base_url: None, model: None, vertex: VertexConfig::default() }
    }
}

/// The metadata of a site made now.
fn fresh_metadata(url: String, description: Option<String>) -> (r: SiteMetadata)
    ensures
        r.url == url,
        r.description == description,
{
    SiteMetadata {
        url,
        description,
        created_at: current_timestamp(),
        updated_at: current_timestamp(),
    }
}

/// The site's data other than its last-change time.
pub open spec fn same_except_stamp(a: SiteMetadata, b: SiteMetadata) -> bool {
    a.url == b.url && a.description == b.description && a.created_at == b.created_at
}

impl ClaudeConfig {
    /// An empty store.
    pub fn new() -> (r: Self)
        ensures
            r.version@ == format_version(),
            r.sites@ == Map::<Seq<char>, ClaudeSite>::empty(),
    {
        ClaudeConfig { version: version_text(), sites: Table::new() }
    }

    /// The site named `site_name`, if any.
    pub fn get_site(&self, site_name: &str) -> (r: Option<&ClaudeSite>)
        ensures
            match r {
                Some(s) => self.sites@.contains_key(site_name@) && *s == self.sites@[site_name@],
                None => !self.sites@.contains_key(site_name@),
            },
    {
        self.sites.get(site_name)
    }

    /// Stores `site` under `site_name`, replacing any site of that name.
    pub fn add_site(&mut self, site_name: String, site: ClaudeSite)
        ensures
            final(self).version == old(self).version,
            final(self).sites@ == old(self).sites@.insert(site_name@, site),
    {
        self.sites.insert(site_name, site);
    }

    /// Takes out the site named `site_name`, if any.
    pub fn remove_site(&mut self, site_name: &str) -> (r: Option<ClaudeSite>)
        ensures
            final(self).version == old(self).version,
            final(self).sites@ == old(self).sites@.remove(site_name@),
            !old(self).sites@.contains_key(site_name@) ==> *final(self) == *old(self),
            r == (if old(self).sites@.contains_key(site_name@) {
                Some(old(self).sites@[site_name@])
            } else {
                None
            }),
    {
        self.sites.remove(site_name)
    }

    /// Resolves `reference` against this store.
    pub fn resolve(&self, reference: &ClaudeActiveReference) -> (r: Result<
        ClaudeActiveConfig,
        ConfigError,
    >)
        ensures
            r == claude_resolution(*reference, *self),
    {
        match self.sites.get(reference.site.as_str()) {
            Some(site) => ClaudeActiveConfig::from_reference(reference, site),
            None => Err(ConfigError::SiteNotFound { site: reference.site.clone() }),
        }
    }
}

impl ClaudeSite {
    /// A site with no token and default settings, made now.
    pub fn new(url: String, description: Option<String>) -> (r: Self)
        ensures
            r.metadata.url == url,
            r.metadata.description == description,
            r.tokens@ == Map::<Seq<char>, String>::empty(),
            r.config.base_url is None,
            r.config.model is None,
            !r.config.vertex.enabled,
            r.config.vertex.project_id is None,
            r.config.vertex.base_url is None,
            !r.config.vertex.skip_auth,
    {
        ClaudeSite {
            metadata: fresh_metadata(url, description),
            tokens: Table::new(),
            config: ClaudeSiteConfig::default(),
        }
    }

    /// Stamps the site as changed now.
    pub fn update_timestamp(&mut self)
        ensures
            same_except_stamp(final(self).metadata, old(self).metadata),
            final(self).tokens == old(self).tokens,
            final(self).config == old(self).config,
    {
        self.metadata.updated_at = current_timestamp();
    }

    /// The token named `token_name`, if any.
    pub fn get_token(&self, token_name: &str) -> (r: Option<&String>)
        ensures
            match r {
                Some(t) => self.tokens@.contains_key(token_name@) && *t == self.tokens@[token_name@],
                None => !self.tokens@.contains_key(token_name@),
            },
    {
        self.tokens.get(token_name)
    }

    /// Sets the token named `token_name`.
    pub fn add_token(&mut self, token_name: String, token: String)
        ensures
            same_except_stamp(final(self).metadata, old(self).metadata),
            final(self).tokens@ == old(self).tokens@.insert(token_name@, token),
            final(self).config == old(self).config,
    {
        self.tokens.insert(token_name, token);
        self.update_timestamp();
    }

    /// Takes out the token named `token_name`, if any.
    pub fn remove_token(&mut self, token_name: &str) -> (r: Option<String>)
        ensures
            same_except_stamp(final(self).metadata, old(self).metadata),
            final(self).tokens@ == old(self).tokens@.remove(token_name@),
            final(self).config == old(self).config,
            r == (if old(self).tokens@.contains_key(token_name@) {
                Some(old(self).tokens@[token_name@])
            } else {
                None
            }),
    {
        let result = self.tokens.remove(token_name);
        if result.is_some() {
            self.update_timestamp();
        }
        result
    }
}

/// The configuration that `reference` stands for, given its site.
pub open spec fn claude_active_of(
    reference: ClaudeActiveReference,
    site: ClaudeSite,
) -> ClaudeActiveConfig {
    ClaudeActiveConfig {
        site: reference.site,
        site_url: site.metadata.url,
        site_description: site.metadata.description,
        token_name: reference.token_name,
        token: site.tokens@[reference.token_name@],
        base_url: site.config.base_url,
        model: site.config.model,
        vertex: site.config.vertex,
    }
}

/// What resolving `reference` against its site gives.
pub open spec fn claude_from_site(reference: ClaudeActiveReference, site: ClaudeSite) -> Result<
    ClaudeActiveConfig,
    ConfigError,
> {
    if site.tokens@.contains_key(reference.token_name@) {
        Ok(claude_active_of(reference, site))
    } else {
        Err(ConfigError::SecretNotFound { site: reference.site, name: reference.token_name })
    }
}

/// What resolving `reference` against `store` gives.
pub open spec fn claude_resolution(reference: ClaudeActiveReference, store: ClaudeConfig) -> Result<
    ClaudeActiveConfig,
    ConfigError,
> {
    if store.sites@.contains_key(reference.site@) {
        claude_from_site(reference, store.sites@[reference.site@])
    } else {
        Err(ConfigError::SiteNotFound { site: reference.site })
    }
}

impl ClaudeActiveConfig {
    /// Resolves `reference` against its site `site`.
    pub fn from_reference(reference: &ClaudeActiveReference, site: &ClaudeSite) -> (r: Result<
        Self,
        ConfigError,
    >)
        ensures
            r == claude_from_site(*reference, *site),
    {
        match site.get_token(reference.token_name.as_str()) {
            Some(token) => Ok(
                ClaudeActiveConfig {
                    site: reference.site.clone(),
                    site_url: site.metadata.url.clone(),
                    site_description: copy_opt(&site.metadata.description),
                    token_name: reference.token_name.clone(),
                    token: token.clone(),
                    base_url: copy_opt(&site.config.base_url),
                    model: copy_opt(&site.config.model),
                    vertex: site.config.vertex.copy(),
                },
            ),
            None => Err(
                ConfigError::SecretNotFound {
                    site: reference.site.clone(),
                    name: reference.token_name.clone(),
                },
            ),
        }
    }
}

// ---------------------------------------------------------------------------
// Codex
// ---------------------------------------------------------------------------

/// The Codex credential store.
pub struct CodexConfig {
    pub version: String,
    pub sites: Table<CodexSite>,
}

/// A Codex site: metadata, named API keys and settings.
pub struct CodexSite {
    pub metadata: SiteMetadata,
    pub api_keys: Table<String>,
    pub config: CodexSiteConfig,
}

/// Settings of a Codex site.
pub struct CodexSiteConfig {
    pub base_url: Option<String>,
    pub model: Option<String>,
    pub model_reasoning_effort: Option<String>,
    pub model_provider: Option<String>,
    pub network_access: Option<String>,
    pub disable_response_storage: Option<bool>,
    pub wire_api: Option<String>,
}

/// The active Codex selection: a site and one of its API keys.
pub struct CodexActiveReference {
    pub site: String,
    pub api_key_name: String,
}

/// A resolved Codex selection.
pub struct CodexActiveConfig {
    pub site: String,
    pub site_url: String,
    pub site_description: Option<String>,
    pub api_key_name: String,
    pub api_key: String,
    pub base_url: Option<String>,
    pub model: Option<String>,
    pub model_reasoning_effort: Option<String>,
    pub model_provider: Option<String>,
    pub network_access: Option<String>,
    pub disable_response_storage: Option<bool>,
    pub wire_api: Option<String>,
}

/// Whether no setting of `c` is set.
pub open spec fn codex_settings_unset(c: CodexSiteConfig) -> bool {
    &&& c.base_url is None
    &&& c.model is None
    &&& c.model_reasoning_effort is None
    &&& c.model_provider is None
    &&& c.network_access is None
    &&& c.disable_response_storage is None
    &&& c.wire_api is None
}

impl Default for CodexSiteConfig {
    fn default() -> (r: Self)
        ensures
            codex_settings_unset(r),
    {
        CodexSiteConfig {
            base_url: None,
            model: None,
            model_reasoning_effort: None,
            model_provider: None,
            network_access: None,
            disable_response_storage: None,
            wire_api: None,
        }
    }
}

impl CodexConfig {
    /// An empty store.
    pub fn new() -> (r: Self)
        ensures
            r.version@ == format_version(),
            r.sites@ == Map::<Seq<char>, CodexSite>::empty(),
    {
        CodexConfig { version: version_text(), sites: Table::new() }
    }

    /// The site named `site_name`, if any.
    pub fn get_site(&self, site_name: &str) -> (r: Option<&CodexSite>)
        ensures
            match r {
                Some(s) => self.sites@.contains_key(site_name@) && *s == self.sites@[site_name@],
                None => !self.sites@.contains_key(site_name@),
            },
    {
        self.sites.get(site_name)
    }

    /// Stores `site` under `site_name`, replacing any site of that name.
    pub fn add_site(&mut self, site_name: String, site: CodexSite)
        ensures
            final(self).version == old(self).version,
            final(self).sites@ == old(self).sites@.insert(site_name@, site),
    {
        self.sites.insert(site_name, site);
    }

    /// Takes out the site named `site_name`, if any.
    pub fn remove_site(&mut self, site_name: &str) -> (r: Option<CodexSite>)
        ensures
            final(self).version == old(self).version,
            final(self).sites@ == old(self).sites@.remove(site_name@),
            !old(self).sites@.contains_key(site_name@) ==> *final(self) == *old(self),
            r == (if old(self).sites@.contains_key(site_name@) {
                Some(old(self).sites@[site_name@])
            } else {
                None
            }),
    {
        self.sites.remove(site_name)
    }

    /// Resolves `reference` against this store.
    pub fn resolve(&self, reference: &CodexActiveReference) -> (r: Result<
        CodexActiveConfig,
        ConfigError,
    >)
        ensures
            r == codex_resolution(*reference, *self),
    {
        match self.sites.get(reference.site.as_str()) {
            Some(site) => CodexActiveConfig::from_reference(reference, site),
            None => Err(ConfigError::SiteNotFound { site: reference.site.clone() }),
        }
    }
}

impl CodexSite {
    /// A site with no API key and no setting, made now.
    pub fn new(url: String, description: Option<String>) -> (r: Self)
        ensures
            r.metadata.url == url,
            r.metadata.description == description,
            r.api_keys@ == Map::<Seq<char>, String>::empty(),
            codex_settings_unset(r.config),
    {
        CodexSite {
            metadata: fresh_metadata(url, description),
            api_keys: Table::new(),
            config: CodexSiteConfig::default(),
        }
    }

    /// Stamps the site as changed now.
    pub fn update_timestamp(&mut self)
        ensures
            same_except_stamp(final(self).metadata, old(self).metadata),
            final(self).api_keys == old(self).api_keys,
            final(self).config == old(self).config,
    {
        self.metadata.updated_at = current_timestamp();
    }

    /// The API key named `key_name`, if any.
    pub fn get_api_key(&self, key_name: &str) -> (r: Option<&String>)
        ensures
            match r {
                Some(t) => self.api_keys@.contains_key(key_name@) && *t == self.api_keys@[key_name@],
                None => !self.api_keys@.contains_key(key_name@),
            },
    {
        self.api_keys.get(key_name)
    }

    /// Sets the API key named `key_name`.
    pub fn add_api_key(&mut self, key_name: String, api_key: String)
        ensures
            same_except_stamp(final(self).metadata, old(self).metadata),
            final(self).api_keys@ == old(self).api_keys@.insert(key_name@, api_key),
            final(self).config == old(self).config,
    {
        self.api_keys.insert(key_name, api_key);
        self.update_timestamp();
    }

    /// Takes out the API key named `key_name`, if any.
    pub fn remove_api_key(&mut self, key_name: &str) -> (r: Option<String>)
        ensures
            same_except_stamp(final(self).metadata, old(self).metadata),
            final(self).api_keys@ == old(self).api_keys@.remove(key_name@),
            final(self).config == old(self).config,
            r == (if old(self).api_keys@.contains_key(key_name@) {
                Some(old(self).api_keys@[key_name@])
            } else {
                None
            }),
    {
        let result = self.api_keys.remove(key_name);
        self.update_timestamp();
        result
    }
}

/// The configuration that `reference` stands for, given its site.
pub open spec fn codex_active_of(reference: CodexActiveReference, site: CodexSite) -> CodexActiveConfig {
    CodexActiveConfig {
        site: reference.site,
        site_url: site.metadata.url,
        site_description: site.metadata.description,
        api_key_name: reference.api_key_name,
        api_key: site.api_keys@[reference.api_key_name@],
        base_url: site.config.base_url,
        model: site.config.model,
        model_reasoning_effort: site.config.model_reasoning_effort,
        model_provider: site.config.model_provider,
        network_access: site.config.network_access,
        disable_response_storage: site.config.disable_response_storage,
        wire_api: site.config.wire_api,
    }
}

/// What resolving `reference` against its site gives.
pub open spec fn codex_from_site(reference: CodexActiveReference, site: CodexSite) -> Result<
    CodexActiveConfig,
    ConfigError,
> {
    if site.api_keys@.contains_key(reference.api_key_name@) {
        Ok(codex_active_of(reference, site))
    } else {
        Err(ConfigError::SecretNotFound { site: reference.site, name: reference.api_key_name })
    }
}

/// What resolving `reference` against `store` gives.
pub open spec fn codex_resolution(reference: CodexActiveReference, store: CodexConfig) -> Result<
    CodexActiveConfig,
    ConfigError,
> {
    if store.sites@.contains_key(reference.site@) {
        codex_from_site(reference, store.sites@[reference.site@])
    } else {
        Err(ConfigError::SiteNotFound { site: reference.site })
    }
}

impl CodexActiveConfig {
    /// Resolves `reference` against its site `site`.
    pub fn from_reference(reference: &CodexActiveReference, site: &CodexSite) -> (r: Result<
        Self,
        ConfigError,
    >)
        ensures
            r == codex_from_site(*reference, *site),
    {
        match site.get_api_key(reference.api_key_name.as_str()) {
            Some(api_key) => Ok(
                CodexActiveConfig {
                    site: reference.site.clone(),
                    site_url: site.metadata.url.clone(),
                    site_description: copy_opt(&site.metadata.description),
                    api_key_name: reference.api_key_name.clone(),
                    api_key: api_key.clone(),
                    base_url: copy_opt(&site.config.base_url),
                    model: copy_opt(&site.config.model),
                    model_reasoning_effort: copy_opt(&site.config.model_reasoning_effort),
                    model_provider: copy_opt(&site.config.model_provider),
                    network_access: copy_opt(&site.config.network_access),
                    disable_response_storage: site.config.disable_response_storage,
                    wire_api: copy_opt(&site.config.wire_api),
                },
            ),
            None => Err(
                ConfigError::SecretNotFound {
                    site: reference.site.clone(),
                    name: reference.api_key_name.clone(),
                },
            ),
        }
    }
}

// ---------------------------------------------------------------------------
// Gemini
// ---------------------------------------------------------------------------

/// The Gemini credential store.
pub struct GeminiConfig {
    pub version: String,
    pub sites: Table<GeminiSite>,
}

/// A Gemini site: metadata, named API keys and settings.
pub struct GeminiSite {
    pub metadata: SiteMetadata,
    pub api_keys: Table<String>,
    pub config: GeminiSiteConfig,
}

/// Settings of a Gemini site.
pub struct GeminiSiteConfig {
    pub base_url: Option<String>,
    pub model: Option<String>,
}

/// The active Gemini selection: a site and one of its API keys.
pub struct GeminiActiveReference {
    pub site: String,
    pub api_key_name: String,
}

/// A resolved Gemini selection.
pub struct GeminiActiveConfig {
    pub site: String,
    pub site_url: String,
    pub site_description: Option<String>,
    pub api_key_name: String,
    pub api_key: String,
    pub base_url: Option<String>,
    pub model: Option<String>,
}

/// Whether no setting of `c` is set.
pub open spec fn gemini_settings_unset(c: GeminiSiteConfig) -> bool {
    &&& c.base_url is None
    &&& c.model is None
}

impl Default for GeminiSiteConfig {
    fn default() -> (r: Self)
        ensures
            gemini_settings_unset(r),
    {
        GeminiSiteConfig {
            base_url: None,
            model: None,
        }
    }
}

impl GeminiConfig {
    /// An empty store.
    pub fn new() -> (r: Self)
        ensures
            r.version@ == format_version(),
            r.sites@ == Map::<Seq<char>, GeminiSite>::empty(),
    {
        GeminiConfig { version: version_text(), sites: Table::new() }
    }

    /// The site named `site_name`, if any.
    pub fn get_site(&self, site_name: &str) -> (r: Option<&GeminiSite>)
        ensures
            match r {
                Some(s) => self.sites@.contains_key(site_name@) && *s == self.sites@[site_name@],
                None => !self.sites@.contains_key(site_name@),
            },
    {
        self.sites.get(site_name)
    }

    /// Stores `site` under `site_name`, replacing any site of that name.
    pub fn add_site(&mut self, site_name: String, site: GeminiSite)
        ensures
            final(self).version == old(self).version,
            final(self).sites@ == old(self).sites@.insert(site_name@, site),
    {
        self.sites.insert(site_name, site);
    }

    /// Takes out the site named `site_name`, if any.
    pub fn remove_site(&mut self, site_name: &str) -> (r: Option<GeminiSite>)
        ensures
            final(self).version == old(self).version,
            final(self).sites@ == old(self).sites@.remove(site_name@),
            !old(self).sites@.contains_key(site_name@) ==> *final(self) == *old(self),
            r == (if old(self).sites@.contains_key(site_name@) {
                Some(old(self).sites@[site_name@])
            } else {
                None
            }),
    {
        self.sites.remove(site_name)
    }

    /// Resolves `reference` against this store.
    pub fn resolve(&self, reference: &GeminiActiveReference) -> (r: Result<
        GeminiActiveConfig,
        ConfigError,
    >)
        ensures
            r == gemini_resolution(*reference, *self),
    {
        match self.sites.get(reference.site.as_str()) {
            Some(site) => GeminiActiveConfig::from_reference(reference, site),
            None => Err(ConfigError::SiteNotFound { site: reference.site.clone() }),
        }
    }
}

impl GeminiSite {
    /// A site with no API key and no setting, made now.
    pub fn new(url: String, description: Option<String>) -> (r: Self)
        ensures
            r.metadata.url == url,
            r.metadata.description == description,
            r.api_keys@ == Map::<Seq<char>, String>::empty(),
            gemini_settings_unset(r.config),
    {
        GeminiSite {
            metadata: fresh_metadata(url, description),
            api_keys: Table::new(),
            config: GeminiSiteConfig::default(),
        }
    }

    /// Stamps the site as changed now.
    pub fn update_timestamp(&mut self)
        ensures
            same_except_stamp(final(self).metadata, old(self).metadata),
            final(self).api_keys == old(self).api_keys,
            final(self).config == old(self).config,
    {
        self.metadata.updated_at = current_timestamp();
    }

    /// The API key named `key_name`, if any.
    pub fn get_api_key(&self, key_name: &str) -> (r: Option<&String>)
        ensures
            match r {
                Some(t) => self.api_keys@.contains_key(key_name@) && *t == self.api_keys@[key_name@],
                None => !self.api_keys@.contains_key(key_name@),
            },
    {
        self.api_keys.get(key_name)
    }

    /// Sets the API key named `key_name`.
    pub fn add_api_key(&mut self, key_name: String, api_key: String)
        ensures
            same_except_stamp(final(self).metadata, old(self).metadata),
            final(self).api_keys@ == old(self).api_keys@.insert(key_name@, api_key),
            final(self).config == old(self).config,
    {
        self.api_keys.insert(key_name, api_key);
        self.update_timestamp();
    }

    /// Takes out the API key named `key_name`, if any.
    pub fn remove_api_key(&mut self, key_name: &str) -> (r: Option<String>)
        ensures
            same_except_stamp(final(self).metadata, old(self).metadata),
            final(self).api_keys@ == old(self).api_keys@.remove(key_name@),
            final(self).config == old(self).config,
            r == (if old(self).api_keys@.contains_key(key_name@) {
                Some(old(self).api_keys@[key_name@])
            } else {
                None
            }),
    {
        let result = self.api_keys.remove(key_name);
        self.update_timestamp();
        result
    }
}

/// The configuration that `reference` stands for, given its site.
pub open spec fn gemini_active_of(reference: GeminiActiveReference, site: GeminiSite) -> GeminiActiveConfig {
    GeminiActiveConfig {
        site: reference.site,
        site_url: site.metadata.url,
        site_description: site.metadata.description,
        api_key_name: reference.api_key_name,
        api_key: site.api_keys@[reference.api_key_name@],
        base_url: site.config.base_url,
        model: site.config.model,
    }
}

/// What resolving `reference` against its site gives.
pub open spec fn gemini_from_site(reference: GeminiActiveReference, site: GeminiSite) -> Result<
    GeminiActiveConfig,
    ConfigError,
> {
    if site.api_keys@.contains_key(reference.api_key_name@) {
        Ok(gemini_active_of(reference, site))
    } else {
        Err(ConfigError::SecretNotFound { site: reference.site, name: reference.api_key_name })
    }
}

/// What resolving `reference` against `store` gives.
pub open spec fn gemini_resolution(reference: GeminiActiveReference, store: GeminiConfig) -> Result<
    GeminiActiveConfig,
    ConfigError,
> {
    if store.sites@.contains_key(reference.site@) {
        gemini_from_site(reference, store.sites@[reference.site@])
    } else {
        Err(ConfigError::SiteNotFound { site: reference.site })
    }
}

impl GeminiActiveConfig {
    /// Resolves `reference` against its site `site`.
    pub fn from_reference(reference: &GeminiActiveReference, site: &GeminiSite) -> (r: Result<
        Self,
        ConfigError,
    >)
        ensures
            r == gemini_from_site(*reference, *site),
    {
        match site.get_api_key(reference.api_key_name.as_str()) {
            Some(api_key) => Ok(
                GeminiActiveConfig {
                    site: reference.site.clone(),
                    site_url: site.metadata.url.clone(),
                    site_description: copy_opt(&site.metadata.description),
                    api_key_name: reference.api_key_name.clone(),
                    api_key: api_key.clone(),
                    base_url: copy_opt(&site.config.base_url),
                    model: copy_opt(&site.config.model),
                },
            ),
            None => Err(
                ConfigError::SecretNotFound {
                    site: reference.site.clone(),
                    name: reference.api_key_name.clone(),
                },
            ),
        }
    }
}

// ---------------------------------------------------------------------------
// OpenCode
// ---------------------------------------------------------------------------

/// The OpenCode provider store.
pub struct OpenCodeConfig {
    pub version: String,
    pub providers: Table<OpenCodeProvider>,
}

/// An OpenCode provider definition.
pub struct OpenCodeProvider {
    pub npm: Option<String>,
    pub name: String,
    pub options: OpenCodeProviderOptions,
    pub models: Table<OpenCodeModelInfo>,
    pub metadata: ProviderMetadata,
}

/// Where a provider is reached and with which key.
pub struct OpenCodeProviderOptions {
    pub base_url: String,
    pub api_key: String,
}

/// Descriptive data of a provider, kept out of the tool's file.
pub struct ProviderMetadata {
    pub description: Option<String>,
    pub created_at: String,
    pub updated_at: String,
}

/// A model offered by a provider.
pub struct OpenCodeModelInfo {
    pub name: String,
    pub limit: Option<OpenCodeModelLimit>,
}

/// Token limits of a model.
#[derive(Clone, Copy)]
pub struct OpenCodeModelLimit {
    pub context: Option<u64>,
    pub output: Option<u64>,
}

/// The active OpenCode selection: the provider of the main role and, where it
/// is set apart, the provider of the light role.
pub struct OpenCodeActiveReference {
    pub provider: String,
    pub small_provider: Option<String>,
}

/// A resolved OpenCode selection.
pub struct OpenCodeActiveConfig {
    pub provider: String,
    pub provider_description: Option<String>,
    pub base_url: String,
    pub api_key: String,
    pub models: Table<OpenCodeModelInfo>,
    pub small_provider: Option<String>,
}

impl OpenCodeModelInfo {
    /// A copy of this model entry.
    pub fn copy(&self) -> (r: Self)
        ensures
            r == *self,
    {
        OpenCodeModelInfo { name: self.name.clone(), limit: self.limit }
    }
}

/// A copy of a table of models.
pub fn copy_models(models: &Table<OpenCodeModelInfo>) -> (r: Table<OpenCodeModelInfo>)
    ensures
        r@ == models@,
{
    let entries = models.entries();
    let mut out = Table::new();
    let mut i: usize = 0;
    while i < entries.len()
        invariant
            i <= entries.len(),
            names_distinct(entries@),
            map_of(entries@) == models@,
            out@ == map_of(entries@.take(i as int)),
        decreases entries.len() - i,
    {
        let ghost pre = entries@.take(i as int);
        proof {
            assert(names_distinct(pre)) by {
                assert forall|a: int, b: int|
                    0 <= a < pre.len() && 0 <= b < pre.len() && a != b implies (#[trigger] pre[a]).0@
                    != (#[trigger] pre[b]).0@ by {
                    assert(pre[a] == entries@[a]);
                    assert(pre[b] == entries@[b]);
                }
            }
            assert(!has_name(pre, entries@[i as int].0@)) by {
                if has_name(pre, entries@[i as int].0@) {
                    let j = choose|j: int| 0 <= j < pre.len() && (#[trigger] pre[j]).0@ == entries@[i as int].0@;
                    assert(pre[j] == entries@[j]);
                }
            }
            lemma_map_push(pre, entries@[i as int]);
            assert(entries@.take(i + 1) =~= pre.push(entries@[i as int]));
        }
        let name = entries[i].0.clone();
        let info = entries[i].1.copy();
        out.insert(name, info);
        i = i + 1;
    }
    proof {
        assert(entries@.take(entries.len() as int) =~= entries@);
    }
    out
}

impl OpenCodeConfig {
    /// An empty store.
    pub fn new() -> (r: Self)
        ensures
            r.version@ == format_version(),
            r.providers@ == Map::<Seq<char>, OpenCodeProvider>::empty(),
    {
        OpenCodeConfig { version: version_text(), providers: Table::new() }
    }

    /// The provider named `provider_name`, if any.
    pub fn get_provider(&self, provider_name: &str) -> (r: Option<&OpenCodeProvider>)
        ensures
            match r {
                Some(p) => self.providers@.contains_key(provider_name@) && *p
                    == self.providers@[provider_name@],
                None => !self.providers@.contains_key(provider_name@),
            },
    {
        self.providers.get(provider_name)
    }

    /// Stores `provider` under `provider_name`, replacing any of that name.
    pub fn add_provider(&mut self, provider_name: String, provider: OpenCodeProvider)
        ensures
            final(self).version == old(self).version,
            final(self).providers@ == old(self).providers@.insert(provider_name@, provider),
    {
        self.providers.insert(provider_name, provider);
    }

    /// Takes out the provider named `provider_name`, if any.
    pub fn remove_provider(&mut self, provider_name: &str) -> (r: Option<OpenCodeProvider>)
        ensures
            final(self).version == old(self).version,
            final(self).providers@ == old(self).providers@.remove(provider_name@),
            !old(self).providers@.contains_key(provider_name@) ==> *final(self) == *old(self),
            r == (if old(self).providers@.contains_key(provider_name@) {
                Some(old(self).providers@[provider_name@])
            } else {
                None
            }),
    {
        self.providers.remove(provider_name)
    }
}

impl Default for OpenCodeConfig {
    fn default() -> (r: Self)
        ensures
            r.version@ == format_version(),
            r.providers@ == Map::<Seq<char>, OpenCodeProvider>::empty(),
    {
        Self::new()
    }
}

/// The provider's data other than its last-change time.
pub open spec fn provider_same_except_stamp(a: ProviderMetadata, b: ProviderMetadata) -> bool {
    a.description == b.description && a.created_at == b.created_at
}

impl OpenCodeProvider {
    /// A provider with no model, made now.
    pub fn new(
        name: String,
        base_url: String,
        api_key: String,
        npm: Option<String>,
        description: Option<String>,
    ) -> (r: Self)
        ensures
            r.name == name,
            r.options.base_url == base_url,
            r.options.api_key == api_key,
            r.npm == npm,
            r.metadata.description == description,
            r.models@ == Map::<Seq<char>, OpenCodeModelInfo>::empty(),
    {
        OpenCodeProvider {
            npm,
            name,
            options: OpenCodeProviderOptions { base_url, api_key },
            models: Table::new(),
            metadata: ProviderMetadata {
                description,
                created_at: current_timestamp(),
                updated_at: current_timestamp(),
            },
        }
    }

    /// The provider's API key.
    pub fn get_api_key(&self) -> (r: &String)
        ensures
            *r == self.options.api_key,
    {
        &self.options.api_key
    }

    /// Replaces the provider's API key.
    pub fn set_api_key(&mut self, api_key: String)
        ensures
            final(self).options.api_key == api_key,
            final(self).options.base_url == old(self).options.base_url,
            final(self).name == old(self).name,
            final(self).npm == old(self).npm,
            final(self).models == old(self).models,
            provider_same_except_stamp(final(self).metadata, old(self).metadata),
    {
        self.options.api_key = api_key;
        self.update_timestamp();
    }

    /// The provider's base URL.
    pub fn get_base_url(&self) -> (r: &String)
        ensures
            *r == self.options.base_url,
    {
        &self.options.base_url
    }

    /// Replaces the provider's base URL.
    pub fn set_base_url(&mut self, base_url: String)
        ensures
            final(self).options.base_url == base_url,
            final(self).options.api_key == old(self).options.api_key,
            final(self).name == old(self).name,
            final(self).npm == old(self).npm,
            final(self).models == old(self).models,
            provider_same_except_stamp(final(self).metadata, old(self).metadata),
    {
        self.options.base_url = base_url;
        self.update_timestamp();
    }

    /// The model of id `model_id`, if any.
    pub fn get_model(&self, model_id: &str) -> (r: Option<&OpenCodeModelInfo>)
        ensures
            match r {
                Some(m) => self.models@.contains_key(model_id@) && *m == self.models@[model_id@],
                None => !self.models@.contains_key(model_id@),
            },
    {
        self.models.get(model_id)
    }

    /// Sets the model of id `model_id`.
    pub fn add_model(&mut self, model_id: String, model_info: OpenCodeModelInfo)
        ensures
            final(self).models@ == old(self).models@.insert(model_id@, model_info),
            final(self).options == old(self).options,
            final(self).name == old(self).name,
            final(self).npm == old(self).npm,
            provider_same_except_stamp(final(self).metadata, old(self).metadata),
    {
        self.models.insert(model_id, model_info);
        self.update_timestamp();
    }

    /// Takes out the model of id `model_id`, if any.
    pub fn remove_model(&mut self, model_id: &str) -> (r: Option<OpenCodeModelInfo>)
        ensures
            final(self).models@ == old(self).models@.remove(model_id@),
            final(self).options == old(self).options,
            final(self).name == old(self).name,
            final(self).npm == old(self).npm,
            provider_same_except_stamp(final(self).metadata, old(self).metadata),
            r == (if old(self).models@.contains_key(model_id@) {
                Some(old(self).models@[model_id@])
            } else {
                None
            }),
    {
        let result = self.models.remove(model_id);
        self.update_timestamp();
        result
    }

    /// Stamps the provider as changed now.
    pub fn update_timestamp(&mut self)
        ensures
            final(self).models == old(self).models,
            final(self).options == old(self).options,
            final(self).name == old(self).name,
            final(self).npm == old(self).npm,
            provider_same_except_stamp(final(self).metadata, old(self).metadata),
    {
        self.metadata.updated_at = current_timestamp();
    }
}

/// The providers that `reference` cites, all of which must be stored.
pub open spec fn opencode_cites_stored(reference: OpenCodeActiveReference, store: OpenCodeConfig) -> bool {
    &&& store.providers@.contains_key(reference.provider@)
    &&& reference.small_provider matches Some(sp) ==> store.providers@.contains_key(sp@)
}

/// What resolving `reference` against `store` gives.
pub open spec fn opencode_resolution(reference: OpenCodeActiveReference, store: OpenCodeConfig, r: Result<
    OpenCodeActiveConfig,
    ConfigError,
>) -> bool {
    if !store.providers@.contains_key(reference.provider@) {
        r == Err::<OpenCodeActiveConfig, ConfigError>(ConfigError::ProviderNotFound { provider: reference.provider })
    } else if !opencode_cites_stored(reference, store) {
        r == Err::<OpenCodeActiveConfig, ConfigError>(ConfigError::ProviderNotFound { provider: reference.small_provider->Some_0 })
    } else {
        r matches Ok(c) && {
            let p = store.providers@[reference.provider@];
            &&& c.provider == reference.provider
            &&& c.provider_description == p.metadata.description
            &&& c.base_url == p.options.base_url
            &&& c.api_key == p.options.api_key
            &&& c.models@ == p.models@
            &&& c.small_provider == reference.small_provider
        }
    }
}

impl OpenCodeActiveConfig {
    /// Resolves `reference` against the store `config`.
    pub fn from_reference(reference: &OpenCodeActiveReference, config: &OpenCodeConfig) -> (r: Result<
        Self,
        ConfigError,
    >)
        ensures
            opencode_resolution(*reference, *config, r),
    {
        let provider = match config.get_provider(reference.provider.as_str()) {
            Some(p) => p,
            None => {
                return Err(ConfigError::ProviderNotFound { provider: reference.provider.clone() });
            },
        };
        if let Some(sp) = &reference.small_provider {
            if config.get_provider(sp.as_str()).is_none() {
                return Err(ConfigError::ProviderNotFound { provider: sp.clone() });
            }
        }
        Ok(
            OpenCodeActiveConfig {
                provider: reference.provider.clone(),
                provider_description: copy_opt(&provider.metadata.description),
                base_url: provider.options.base_url.clone(),
                api_key: provider.options.api_key.clone(),
                models: copy_models(&provider.models),
                small_provider: copy_opt(&reference.small_provider),
            },
        )
    }
}

} // verus!
