use vstd::prelude::*;

use crate::claude_manager::ClaudeConfigManager;
use crate::codex_manager::CodexConfigManager;
use crate::error::ConfigError;
use crate::gemini_manager::GeminiConfigManager;
use crate::json::{well_named, Json};
use crate::models::{
    claude_active_of, claude_resolution, codex_active_of, codex_resolution, gemini_active_of,
    gemini_resolution, opencode_resolution, ClaudeActiveConfig, ClaudeActiveReference, ClaudeConfig,
    CodexActiveConfig, CodexActiveReference, CodexConfig, GeminiActiveConfig, GeminiActiveReference,
    GeminiConfig, GlobalConfig, OpenCodeActiveConfig, OpenCodeActiveReference, OpenCodeConfig,
};
use crate::opencode_manager::OpenCodeConfigManager;
use crate::sync::{
    claude_settings, claude_settings_holds, codex_auth, codex_config_toml, codex_toml, gemini_env,
    gemini_env_text, opencode_document, opencode_document_holds, texts_object,
};
use crate::text::{joined, owned};

verus! {

/// The composition root: the reference store and the four credential stores.
pub struct ConfigManager {
    pub global_config_file: String,
    pub global_config: GlobalConfig,
    pub claude_manager: ClaudeConfigManager,
    pub codex_manager: CodexConfigManager,
    pub gemini_manager: GeminiConfigManager,
    pub opencode_manager: OpenCodeConfigManager,
}

/// What `get_active_claude_config` reports for these stores.
pub open spec fn active_claude(g: GlobalConfig, store: ClaudeConfig) -> Result<Option<ClaudeActiveConfig>, ConfigError> {
    match g.active.claude {
        None => Ok(None),
        Some(reference) => match claude_resolution(reference, store) {
            Ok(c) => Ok(Some(c)),
            Err(e) => Err(e),
        },
    }
}

/// What `get_active_codex_config` reports for these stores.
pub open spec fn active_codex(g: GlobalConfig, store: CodexConfig) -> Result<Option<CodexActiveConfig>, ConfigError> {
    match g.active.codex {
        None => Ok(None),
        Some(reference) => match codex_resolution(reference, store) {
            Ok(c) => Ok(Some(c)),
            Err(e) => Err(e),
        },
    }
}

/// What `get_active_gemini_config` reports for these stores.
pub open spec fn active_gemini(g: GlobalConfig, store: GeminiConfig) -> Result<Option<GeminiActiveConfig>, ConfigError> {
    match g.active.gemini {
        None => Ok(None),
        Some(reference) => match gemini_resolution(reference, store) {
            Ok(c) => Ok(Some(c)),
            Err(e) => Err(e),
        },
    }
}

/// What `get_active_opencode_config` reports for these stores.
pub open spec fn active_opencode(g: GlobalConfig, store: OpenCodeConfig, r: Result<Option<OpenCodeActiveConfig>, ConfigError>) -> bool {
    match g.active.opencode {
        None => r == Ok::<Option<OpenCodeActiveConfig>, ConfigError>(None),
        Some(reference) => match r {
            Ok(Some(c)) => opencode_resolution(reference, store, Ok(c)),
            Ok(None) => false,
            Err(e) => opencode_resolution(reference, store, Err(e)),
        },
    }
}

/// Everything but the reference store is as it was.
pub open spec fn stores_kept(a: ConfigManager, b: ConfigManager) -> bool {
    &&& a.global_config_file == b.global_config_file
    &&& a.claude_manager == b.claude_manager
    &&& a.codex_manager == b.codex_manager
    &&& a.gemini_manager == b.gemini_manager
    &&& a.opencode_manager == b.opencode_manager
}

/// The reference store changed in the given slot alone.
pub open spec fn only_slot_changed(a: GlobalConfig, b: GlobalConfig, claude: bool, codex: bool, gemini: bool, opencode: bool) -> bool {
    &&& a.version == b.version
    &&& a.metadata.created_at == b.metadata.created_at
    &&& (!claude ==> a.active.claude == b.active.claude)
    &&& (!codex ==> a.active.codex == b.active.codex)
    &&& (!gemini ==> a.active.gemini == b.active.gemini)
    &&& (!opencode ==> a.active.opencode == b.active.opencode)
}

impl ConfigManager {
    /// The composition of the given stores; the reference store and the
    /// stores other than the Anthropic one keep their files under `home_dir`.
    pub fn new(
        home_dir: &str,
        global_config: GlobalConfig,
        claude_manager: ClaudeConfigManager,
        codex: CodexConfig,
        gemini: GeminiConfig,
        opencode: OpenCodeConfig,
    ) -> (r: Self)
        ensures
            r.global_config_file@ == home_dir@ + "/.cc-cli/config.json"@,
            r.global_config == global_config,
            r.claude_manager == claude_manager,
            r.codex_manager.config == codex,
            r.gemini_manager.config == gemini,
            r.opencode_manager.config == opencode,
    {
        ConfigManager {
            global_config_file: joined(home_dir, "/.cc-cli/config.json"),
            global_config,
            claude_manager,
            codex_manager: CodexConfigManager::new(home_dir, codex),
            gemini_manager: GeminiConfigManager::new(home_dir, gemini),
            opencode_manager: OpenCodeConfigManager::new(home_dir, opencode),
        }
    }

    /// The reference store as it stands.
    pub fn read_global_config(&self) -> (r: &GlobalConfig)
        ensures
            *r == self.global_config,
    {
        &self.global_config
    }

    /// The Anthropic store.
    pub fn claude(&self) -> (r: &ClaudeConfigManager)
        ensures
            *r == self.claude_manager,
    {
        &self.claude_manager
    }

    /// The Anthropic store, for a change.
    pub fn claude_mut(&mut self) -> (r: &mut ClaudeConfigManager)
        ensures
            *r == old(self).claude_manager,
            *final(self) == (ConfigManager { claude_manager: *final(r), ..*old(self) }),
    {
        &mut self.claude_manager
    }

    /// The Codex store.
    pub fn codex(&self) -> (r: &CodexConfigManager)
        ensures
            *r == self.codex_manager,
    {
        &self.codex_manager
    }

    /// The Codex store, for a change.
    pub fn codex_mut(&mut self) -> (r: &mut CodexConfigManager)
        ensures
            *r == old(self).codex_manager,
            *final(self) == (ConfigManager { codex_manager: *final(r), ..*old(self) }),
    {
        &mut self.codex_manager
    }

    /// The Gemini store.
    pub fn gemini(&self) -> (r: &GeminiConfigManager)
        ensures
            *r == self.gemini_manager,
    {
        &self.gemini_manager
    }

    /// The Gemini store, for a change.
    pub fn gemini_mut(&mut self) -> (r: &mut GeminiConfigManager)
        ensures
            *r == old(self).gemini_manager,
            *final(self) == (ConfigManager { gemini_manager: *final(r), ..*old(self) }),
    {
        &mut self.gemini_manager
    }

    /// The OpenCode store.
    pub fn opencode(&self) -> (r: &OpenCodeConfigManager)
        ensures
            *r == self.opencode_manager,
    {
        &self.opencode_manager
    }

    /// The OpenCode store, for a change.
    pub fn opencode_mut(&mut self) -> (r: &mut OpenCodeConfigManager)
        ensures
            *r == old(self).opencode_manager,
            *final(self) == (ConfigManager { opencode_manager: *final(r), ..*old(self) }),
    {
        &mut self.opencode_manager
    }

    /// The active Anthropic configuration: `None` when none is selected, an
    /// error when the selection no longer resolves.
    pub fn get_active_claude_config(&self) -> (r: Result<Option<ClaudeActiveConfig>, ConfigError>)
        ensures
            r == active_claude(self.global_config, self.claude_manager.config),
    {
        match &self.global_config.active.claude {
            None => Ok(None),
            Some(reference) => match self.claude_manager.config.resolve(reference) {
                Ok(c) => Ok(Some(c)),
                Err(e) => Err(e),
            },
        }
    }

    /// Selects the token `token_name` of the site `site_name` and returns the
    /// settings document to write, given the one found on disk.
    pub fn switch_claude_config(&mut self, site_name: &str, token_name: &str, existing_settings: Option<Json>) -> (r: Result<Json, ConfigError>)
        requires
            existing_settings matches Some(j) ==> well_named(j),
        ensures
            ({
                let sites = old(self).claude_manager.config.sites@;
                &&& !sites.contains_key(site_name@) ==> (r is Err && r->Err_0.is_site_not_found(site_name@) && *final(self) == *old(self))
                &&& sites.contains_key(site_name@) && !sites[site_name@].tokens@.contains_key(token_name@)
                    ==> (r is Err && r->Err_0.is_secret_not_found(site_name@, token_name@) && *final(self) == *old(self))
                &&& sites.contains_key(site_name@) && sites[site_name@].tokens@.contains_key(token_name@) ==> {
                    &&& r is Ok
                    &&& stores_kept(*final(self), *old(self))
                    &&& only_slot_changed(final(self).global_config, old(self).global_config, true, false, false, false)
                    &&& final(self).global_config.active.claude is Some
                    &&& final(self).global_config.active.claude->Some_0.site@ == site_name@
                    &&& final(self).global_config.active.claude->Some_0.token_name@ == token_name@
                    &&& claude_settings_holds(existing_settings, claude_active_of(final(self).global_config.active.claude->Some_0, sites[site_name@]), r->Ok_0)
                }
            }),
    {
        match self.claude_manager.config.get_site(site_name) {
            None => return Err(ConfigError::SiteNotFound { site: owned(site_name) }),
            Some(site) => {
                if !site.tokens.contains_key(token_name) {
                    return Err(ConfigError::SecretNotFound { site: owned(site_name), name: owned(token_name) });
                }
            },
        }
        let reference = ClaudeActiveReference { site: owned(site_name), token_name: owned(token_name) };
        self.global_config.active.claude = Some(reference);
        self.global_config.update_timestamp();
        match self.get_active_claude_config() {
            Ok(Some(active)) => Ok(claude_settings(existing_settings, &active)),
            Ok(None) => Err(ConfigError::SiteNotFound { site: owned(site_name) }),
            Err(e) => Err(e),
        }
    }

    /// The active Codex configuration: `None` when none is selected, an
    /// error when the selection no longer resolves.
    pub fn get_active_codex_config(&self) -> (r: Result<Option<CodexActiveConfig>, ConfigError>)
        ensures
            r == active_codex(self.global_config, self.codex_manager.config),
    {
        match &self.global_config.active.codex {
            None => Ok(None),
            Some(reference) => match self.codex_manager.config.resolve(reference) {
                Ok(c) => Ok(Some(c)),
                Err(e) => Err(e),
            },
        }
    }

    /// Selects the API key `api_key_name` of the site `site_name` and returns
    /// the texts of `config.toml` and `auth.json` to write.
    pub fn switch_codex_config(&mut self, site_name: &str, api_key_name: &str) -> (r: Result<(String, Json), ConfigError>)
        ensures
            ({
                let sites = old(self).codex_manager.config.sites@;
                &&& !sites.contains_key(site_name@) ==> (r is Err && r->Err_0.is_site_not_found(site_name@) && *final(self) == *old(self))
                &&& sites.contains_key(site_name@) && !sites[site_name@].api_keys@.contains_key(api_key_name@)
                    ==> (r is Err && r->Err_0.is_secret_not_found(site_name@, api_key_name@) && *final(self) == *old(self))
                &&& sites.contains_key(site_name@) && sites[site_name@].api_keys@.contains_key(api_key_name@) ==> {
                    let active = codex_active_of(final(self).global_config.active.codex->Some_0, sites[site_name@]);
                    &&& r is Ok
                    &&& stores_kept(*final(self), *old(self))
                    &&& only_slot_changed(final(self).global_config, old(self).global_config, false, true, false, false)
                    &&& final(self).global_config.active.codex is Some
                    &&& final(self).global_config.active.codex->Some_0.site@ == site_name@
                    &&& final(self).global_config.active.codex->Some_0.api_key_name@ == api_key_name@
                    &&& r->Ok_0.0@ == codex_toml(active)
                    &&& texts_object(r->Ok_0.1, Map::<Seq<char>, Seq<char>>::empty().insert("OPENAI_API_KEY"@, active.api_key@))
                }
            }),
    {
        match self.codex_manager.config.get_site(site_name) {
            None => return Err(ConfigError::SiteNotFound { site: owned(site_name) }),
            Some(site) => {
                if site.get_api_key(api_key_name).is_none() {
                    return Err(ConfigError::SecretNotFound { site: owned(site_name), name: owned(api_key_name) });
                }
            },
        }
        let reference = CodexActiveReference { site: owned(site_name), api_key_name: owned(api_key_name) };
        self.global_config.active.codex = Some(reference);
        self.global_config.update_timestamp();
        match self.get_active_codex_config() {
            Ok(Some(active)) => Ok((codex_config_toml(&active), codex_auth(&active))),
            Ok(None) => Err(ConfigError::SiteNotFound { site: owned(site_name) }),
            Err(e) => Err(e),
        }
    }

    /// The active Gemini configuration: `None` when none is selected, an
    /// error when the selection no longer resolves.
    pub fn get_active_gemini_config(&self) -> (r: Result<Option<GeminiActiveConfig>, ConfigError>)
        ensures
            r == active_gemini(self.global_config, self.gemini_manager.config),
    {
        match &self.global_config.active.gemini {
            None => Ok(None),
            Some(reference) => match self.gemini_manager.config.resolve(reference) {
                Ok(c) => Ok(Some(c)),
                Err(e) => Err(e),
            },
        }
    }

    /// Selects the API key `api_key_name` of the site `site_name` and returns
    /// the text of the `.env` file to write.
    pub fn switch_gemini_config(&mut self, site_name: &str, api_key_name: &str) -> (r: Result<String, ConfigError>)
        ensures
            ({
                let sites = old(self).gemini_manager.config.sites@;
                &&& !sites.contains_key(site_name@) ==> (r is Err && r->Err_0.is_site_not_found(site_name@) && *final(self) == *old(self))
                &&& sites.contains_key(site_name@) && !sites[site_name@].api_keys@.contains_key(api_key_name@)
                    ==> (r is Err && r->Err_0.is_secret_not_found(site_name@, api_key_name@) && *final(self) == *old(self))
                &&& sites.contains_key(site_name@) && sites[site_name@].api_keys@.contains_key(api_key_name@) ==> {
                    &&& r is Ok
                    &&& stores_kept(*final(self), *old(self))
                    &&& only_slot_changed(final(self).global_config, old(self).global_config, false, false, true, false)
                    &&& final(self).global_config.active.gemini is Some
                    &&& final(self).global_config.active.gemini->Some_0.site@ == site_name@
                    &&& final(self).global_config.active.gemini->Some_0.api_key_name@ == api_key_name@
                    &&& r->Ok_0@ == gemini_env_text(gemini_active_of(final(self).global_config.active.gemini->Some_0, sites[site_name@]))
                }
            }),
    {
        match self.gemini_manager.config.get_site(site_name) {
            None => return Err(ConfigError::SiteNotFound { site: owned(site_name) }),
            Some(site) => {
                if site.get_api_key(api_key_name).is_none() {
                    return Err(ConfigError::SecretNotFound { site: owned(site_name), name: owned(api_key_name) });
                }
            },
        }
        let reference = GeminiActiveReference { site: owned(site_name), api_key_name: owned(api_key_name) };
        self.global_config.active.gemini = Some(reference);
        self.global_config.update_timestamp();
        match self.get_active_gemini_config() {
            Ok(Some(active)) => Ok(gemini_env(&active)),
            Ok(None) => Err(ConfigError::SiteNotFound { site: owned(site_name) }),
            Err(e) => Err(e),
        }
    }

    /// The active OpenCode configuration: `None` when none is selected, an
    /// error when the selection no longer resolves.
    pub fn get_active_opencode_config(&self) -> (r: Result<Option<OpenCodeActiveConfig>, ConfigError>)
        ensures
            active_opencode(self.global_config, self.opencode_manager.config, r),
    {
        match &self.global_config.active.opencode {
            None => Ok(None),
            Some(reference) => match OpenCodeActiveConfig::from_reference(reference, &self.opencode_manager.config) {
                Ok(c) => Ok(Some(c)),
                Err(e) => Err(e),
            },
        }
    }

    /// Selects `provider` for the main role, with no separate light role,
    /// and returns the document to write to the tool's global file.
    pub fn switch_opencode_config(&mut self, provider: &str) -> (r: Result<Json, ConfigError>)
        ensures
            ({
                let providers = old(self).opencode_manager.config.providers@;
                &&& !providers.contains_key(provider@) ==> (r is Err && r->Err_0.is_provider_not_found(provider@) && *final(self) == *old(self))
                &&& providers.contains_key(provider@) ==> {
                    &&& r is Ok
                    &&& stores_kept(*final(self), *old(self))
                    &&& only_slot_changed(final(self).global_config, old(self).global_config, false, false, false, true)
                    &&& final(self).global_config.active.opencode is Some
                    &&& final(self).global_config.active.opencode->Some_0.provider@ == provider@
                    &&& final(self).global_config.active.opencode->Some_0.small_provider is None
                    &&& opencode_document_holds(final(self).opencode_manager.config, provider@, None, r->Ok_0)
                }
            }),
    {
        if self.opencode_manager.config.get_provider(provider).is_none() {
            return Err(ConfigError::ProviderNotFound { provider: owned(provider) });
        }
        let reference = OpenCodeActiveReference { provider: owned(provider), small_provider: None };
        self.global_config.active.opencode = Some(reference);
        self.global_config.update_timestamp();
        match self.get_active_opencode_config() {
            Ok(Some(active)) => {
                let doc = opencode_document(&self.opencode_manager.config, &active);
                proof {
                    assert(opencode_resolution(self.global_config.active.opencode->Some_0, self.opencode_manager.config, Ok(active)));
                    assert(active.provider@ == provider@);
                }
                Ok(doc)
            },
            Ok(None) => Err(ConfigError::ProviderNotFound { provider: owned(provider) }),
            Err(e) => Err(e),
        }
    }

    /// Selects `provider` for the main role and `small_provider` for the
    /// light role, and returns the document to write to the tool's global file.
    pub fn switch_opencode_roles(&mut self, provider: &str, small_provider: &str) -> (r: Result<Json, ConfigError>)
        ensures
            ({
                let providers = old(self).opencode_manager.config.providers@;
                &&& !providers.contains_key(provider@) ==> (r is Err && r->Err_0.is_provider_not_found(provider@) && *final(self) == *old(self))
                &&& providers.contains_key(provider@) && !providers.contains_key(small_provider@) ==> (r is Err && r->Err_0.is_provider_not_found(small_provider@) && *final(self) == *old(self))
                &&& providers.contains_key(provider@) && providers.contains_key(small_provider@) ==> {
                    &&& r is Ok
                    &&& stores_kept(*final(self), *old(self))
                    &&& only_slot_changed(final(self).global_config, old(self).global_config, false, false, false, true)
                    &&& final(self).global_config.active.opencode is Some
                    &&& final(self).global_config.active.opencode->Some_0.provider@ == provider@
                    &&& final(self).global_config.active.opencode->Some_0.small_provider is Some
                    &&& final(self).global_config.active.opencode->Some_0.small_provider->Some_0@ == small_provider@
                    &&& opencode_document_holds(final(self).opencode_manager.config, provider@, Some(small_provider@), r->Ok_0)
                }
            }),
    {
        if self.opencode_manager.config.get_provider(provider).is_none() {
            return Err(ConfigError::ProviderNotFound { provider: owned(provider) });
        }
        if self.opencode_manager.config.get_provider(small_provider).is_none() {
            return Err(ConfigError::ProviderNotFound { provider: owned(small_provider) });
        }
        let reference = OpenCodeActiveReference { provider: owned(provider), small_provider: Some(owned(small_provider)) };
        self.global_config.active.opencode = Some(reference);
        self.global_config.update_timestamp();
        match self.get_active_opencode_config() {
            Ok(Some(active)) => {
                let doc = opencode_document(&self.opencode_manager.config, &active);
                proof {
                    assert(opencode_resolution(self.global_config.active.opencode->Some_0, self.opencode_manager.config, Ok(active)));
                    assert(active.provider@ == provider@);
                }
                Ok(doc)
            },
            Ok(None) => Err(ConfigError::ProviderNotFound { provider: owned(provider) }),
            Err(e) => Err(e),
        }
    }

    /// The document to write to the current project's `.opencode/opencode.json`
    /// for `provider`; the reference store is left as it is.
    pub fn apply_opencode_to_project(&self, provider: &str) -> (r: Result<Json, ConfigError>)
        ensures
            ({
                let providers = self.opencode_manager.config.providers@;
                &&& !providers.contains_key(provider@) ==> (r is Err && r->Err_0.is_provider_not_found(provider@))
                &&& providers.contains_key(provider@) ==> r is Ok && opencode_document_holds(self.opencode_manager.config, provider@, None, r->Ok_0)
            }),
    {
        let reference = OpenCodeActiveReference { provider: owned(provider), small_provider: None };
        match OpenCodeActiveConfig::from_reference(&reference, &self.opencode_manager.config) {
            Ok(active) => {
                let doc = opencode_document(&self.opencode_manager.config, &active);
                proof {
                    assert(active.provider@ == provider@);
                    assert(active.small_provider is None);
                }
                Ok(doc)
            },
            Err(e) => Err(e),
        }
    }
}

} // verus!
