use vstd::prelude::*;

use crate::error::ConfigError;
use crate::claude_manager::{patched, patched_description, site_replaced};
use crate::models::{codex_settings_unset, same_except_stamp, CodexActiveConfig, CodexConfig, CodexSite};
use crate::json::{well_named, Json};
use crate::sync::{codex_auth, codex_config_toml, codex_toml, texts_object};
use crate::table::Table;
use crate::text::{joined, owned};

verus! {

/// The Codex credential store, held in memory, with the places of its files.
pub struct CodexConfigManager {
    pub config_dir: String,
    pub codex_config_file: String,
    pub codex_dir: String,
    pub codex_config_toml: String,
    pub codex_auth_json: String,
    pub config: CodexConfig,
}

impl CodexConfigManager {
    /// A manager for the store `config`, whose files lie under the home directory `home_dir`.
    pub fn new(home_dir: &str, config: CodexConfig) -> (r: Self)
        ensures
            r.config == config,
            r.config_dir@ == home_dir@ + "/.cc-cli"@,
            r.codex_config_file@ == home_dir@ + "/.cc-cli/codex.json"@,
            r.codex_dir@ == home_dir@ + "/.codex"@,
            r.codex_config_toml@ == home_dir@ + "/.codex/config.toml"@,
            r.codex_auth_json@ == home_dir@ + "/.codex/auth.json"@,
    {
        CodexConfigManager {
            config_dir: joined(home_dir, "/.cc-cli"),
            codex_config_file: joined(home_dir, "/.cc-cli/codex.json"),
            codex_dir: joined(home_dir, "/.codex"),
            codex_config_toml: joined(home_dir, "/.codex/config.toml"),
            codex_auth_json: joined(home_dir, "/.codex/auth.json"),
            config,
        }
    }

    /// The store as it stands.
    pub fn read_config(&self) -> (r: &CodexConfig)
        ensures
            *r == self.config,
    {
        &self.config
    }

    /// Every site, by name.
    pub fn get_all_sites(&self) -> (r: &Table<CodexSite>)
        ensures
            r@ == self.config.sites@,
    {
        &self.config.sites
    }

    /// The site named `site_name`, if any.
    pub fn get_site(&self, site_name: &str) -> (r: Option<&CodexSite>)
        ensures
            match r {
                Some(s) => self.config.sites@.contains_key(site_name@) && *s
                    == self.config.sites@[site_name@],
                None => !self.config.sites@.contains_key(site_name@),
            },
    {
        self.config.get_site(site_name)
    }

    /// Adds a site with no API key; fails if the name is taken.
    pub fn add_site(&mut self, site_name: String, url: String, description: Option<String>) -> (r:
        Result<(), ConfigError>)
        ensures
            final(self).config.version == old(self).config.version,
            old(self).config.sites@.contains_key(site_name@) ==> (r is Err && r->Err_0.is_site_exists(
                site_name@,
            ) && final(self).config == old(self).config),
            !old(self).config.sites@.contains_key(site_name@) ==> r is Ok && final(self).config.sites@
                == old(self).config.sites@.insert(site_name@, final(self).config.sites@[site_name@])
                && {
                let s = final(self).config.sites@[site_name@];
                &&& s.metadata.url == url
                &&& s.metadata.description == description
                &&& s.api_keys@ == Map::<Seq<char>, String>::empty()
                &&& codex_settings_unset(s.config)
            },
    {
        if self.config.sites.contains_key(site_name.as_str()) {
            return Err(ConfigError::SiteExists { site: site_name });
        }
        let site = CodexSite::new(url, description);
        self.config.add_site(site_name, site);
        Ok(())
    }

    /// Takes the site named `site_name` out of the store for a change.
    fn take_site(&mut self, site_name: &str) -> (r: Result<CodexSite, ConfigError>)
        ensures
            final(self).config.version == old(self).config.version,
            old(self).config.sites@.contains_key(site_name@) ==> r == Ok::<CodexSite, ConfigError>(
                old(self).config.sites@[site_name@],
            ) && final(self).config.sites@ == old(self).config.sites@.remove(site_name@),
            !old(self).config.sites@.contains_key(site_name@) ==> (r is Err
                && r->Err_0.is_site_not_found(site_name@) && final(self).config == old(self).config),
    {
        match self.config.remove_site(site_name) {
            Some(s) => Ok(s),
            None => {
                proof {
                    assert(self.config.sites@ =~= old(self).config.sites@);
                }
                Err(ConfigError::SiteNotFound { site: owned(site_name) })
            },
        }
    }

    /// Updates the site's URL and description, each where given.
    pub fn update_site_metadata(
        &mut self,
        site_name: &str,
        url: Option<String>,
        description: Option<String>,
    ) -> (r: Result<(), ConfigError>)
        ensures
            final(self).config.version == old(self).config.version,
            !old(self).config.sites@.contains_key(site_name@) ==> (r is Err
                && r->Err_0.is_site_not_found(site_name@) && final(self).config == old(self).config),
            old(self).config.sites@.contains_key(site_name@) ==> r is Ok && site_replaced(
                old(self).config.sites@,
                final(self).config.sites@,
                site_name@,
            ) && {
                let before = old(self).config.sites@[site_name@];
                let after = final(self).config.sites@[site_name@];
                &&& after.metadata.url == patched(url, before.metadata.url)
                &&& after.metadata.description == patched_description(description, before.metadata.description)
                &&& after.metadata.created_at == before.metadata.created_at
                &&& after.api_keys == before.api_keys
                &&& after.config == before.config
            },
    {
        let mut site = match self.take_site(site_name) {
            Ok(s) => s,
            Err(e) => return Err(e),
        };
        if let Some(new_url) = url {
            site.metadata.url = new_url;
        }
        if let Some(new_desc) = description {
            site.metadata.description = Some(new_desc);
        }
        site.update_timestamp();
        self.config.add_site(owned(site_name), site);
        proof {
            assert(self.config.sites@ =~= old(self).config.sites@.insert(site_name@, self.config.sites@[site_name@]));
        }
        Ok(())
    }

    /// Updates the site's settings, each where given.
    pub fn update_site_config(
        &mut self,
        site_name: &str,
        base_url: Option<String>,
        model: Option<String>,
        model_reasoning_effort: Option<String>,
        model_provider: Option<String>,
        network_access: Option<String>,
        disable_response_storage: Option<bool>,
        wire_api: Option<String>,
    ) -> (r: Result<(), ConfigError>)
        ensures
            final(self).config.version == old(self).config.version,
            !old(self).config.sites@.contains_key(site_name@) ==> (r is Err
                && r->Err_0.is_site_not_found(site_name@) && final(self).config == old(self).config),
            old(self).config.sites@.contains_key(site_name@) ==> r is Ok && site_replaced(
                old(self).config.sites@,
                final(self).config.sites@,
                site_name@,
            ) && {
                let before = old(self).config.sites@[site_name@].config;
                let after = final(self).config.sites@[site_name@].config;
                &&& after.base_url == patched_description(base_url, before.base_url)
                &&& after.model == patched_description(model, before.model)
                &&& after.model_reasoning_effort == patched_description(model_reasoning_effort, before.model_reasoning_effort)
                &&& after.model_provider == patched_description(model_provider, before.model_provider)
                &&& after.network_access == patched_description(network_access, before.network_access)
                &&& after.disable_response_storage == (match disable_response_storage {
                    Some(b) => Some(b),
                    None => before.disable_response_storage,
                })
                &&& after.wire_api == patched_description(wire_api, before.wire_api)
                &&& same_except_stamp(final(self).config.sites@[site_name@].metadata, old(self).config.sites@[site_name@].metadata)
                &&& final(self).config.sites@[site_name@].api_keys == old(self).config.sites@[site_name@].api_keys
            },
    {
        let mut site = match self.take_site(site_name) {
            Ok(s) => s,
            Err(e) => return Err(e),
        };
        if let Some(v) = base_url {
            site.config.base_url = Some(v);
        }
        if let Some(v) = model {
            site.config.model = Some(v);
        }
        if let Some(v) = model_reasoning_effort {
            site.config.model_reasoning_effort = Some(v);
        }
        if let Some(v) = model_provider {
            site.config.model_provider = Some(v);
        }
        if let Some(v) = network_access {
            site.config.network_access = Some(v);
        }
        if let Some(v) = disable_response_storage {
            site.config.disable_response_storage = Some(v);
        }
        if let Some(v) = wire_api {
            site.config.wire_api = Some(v);
        }
        site.update_timestamp();
        self.config.add_site(owned(site_name), site);
        proof {
            assert(self.config.sites@ =~= old(self).config.sites@.insert(site_name@, self.config.sites@[site_name@]));
        }
        Ok(())
    }

    /// Removes the site named `site_name`.
    pub fn delete_site(&mut self, site_name: &str) -> (r: Result<(), ConfigError>)
        ensures
            final(self).config.version == old(self).config.version,
            !old(self).config.sites@.contains_key(site_name@) ==> (r is Err
                && r->Err_0.is_site_not_found(site_name@) && final(self).config == old(self).config),
            old(self).config.sites@.contains_key(site_name@) ==> r is Ok && final(self).config.sites@
                == old(self).config.sites@.remove(site_name@),
    {
        match self.take_site(site_name) {
            Ok(_) => Ok(()),
            Err(e) => Err(e),
        }
    }

    /// Adds the API key `key_name` to the site; fails if the site is missing
    /// or already has an API key of that name.
    pub fn add_api_key(&mut self, site_name: &str, key_name: String, api_key: String) -> (r: Result<
        (),
        ConfigError,
    >)
        ensures
            final(self).config.version == old(self).config.version,
            !old(self).config.sites@.contains_key(site_name@) ==> (r is Err
                && r->Err_0.is_site_not_found(site_name@) && final(self).config == old(self).config),
            old(self).config.sites@.contains_key(site_name@)
                && old(self).config.sites@[site_name@].api_keys@.contains_key(key_name@) ==> (r is Err
                && r->Err_0.is_secret_exists(site_name@, key_name@) && final(self).config == old(
                self,
            ).config),
            old(self).config.sites@.contains_key(site_name@)
                && !old(self).config.sites@[site_name@].api_keys@.contains_key(key_name@) ==> r is Ok
                && api_key_set(old(self).config.sites@, final(self).config.sites@, site_name@, key_name@, api_key),
    {
        match self.config.get_site(site_name) {
            None => return Err(ConfigError::SiteNotFound { site: owned(site_name) }),
            Some(s) => {
                if s.api_keys.contains_key(key_name.as_str()) {
                    return Err(
                        ConfigError::SecretExists { site: owned(site_name), name: key_name },
                    );
                }
            },
        }
        let mut site = match self.take_site(site_name) {
            Ok(s) => s,
            Err(e) => return Err(e),
        };
        site.add_api_key(key_name, api_key);
        self.config.add_site(owned(site_name), site);
        proof {
            assert(self.config.sites@ =~= old(self).config.sites@.insert(site_name@, self.config.sites@[site_name@]));
        }
        Ok(())
    }

    /// Replaces the API key `key_name` of the site; fails if either is missing.
    pub fn update_api_key(&mut self, site_name: &str, key_name: &str, new_api_key: String) -> (r:
        Result<(), ConfigError>)
        ensures
            final(self).config.version == old(self).config.version,
            !old(self).config.sites@.contains_key(site_name@) ==> (r is Err
                && r->Err_0.is_site_not_found(site_name@) && final(self).config == old(self).config),
            old(self).config.sites@.contains_key(site_name@)
                && !old(self).config.sites@[site_name@].api_keys@.contains_key(key_name@) ==> (r is Err
                && r->Err_0.is_secret_not_found(site_name@, key_name@) && final(self).config == old(
                self,
            ).config),
            old(self).config.sites@.contains_key(site_name@)
                && old(self).config.sites@[site_name@].api_keys@.contains_key(key_name@) ==> r is Ok
                && api_key_set(old(self).config.sites@, final(self).config.sites@, site_name@, key_name@, new_api_key),
    {
        match self.config.get_site(site_name) {
            None => return Err(ConfigError::SiteNotFound { site: owned(site_name) }),
            Some(s) => {
                if !s.api_keys.contains_key(key_name) {
                    return Err(
                        ConfigError::SecretNotFound { site: owned(site_name), name: owned(key_name) },
                    );
                }
            },
        }
        let mut site = match self.take_site(site_name) {
            Ok(s) => s,
            Err(e) => return Err(e),
        };
        site.add_api_key(owned(key_name), new_api_key);
        self.config.add_site(owned(site_name), site);
        proof {
            assert(self.config.sites@ =~= old(self).config.sites@.insert(site_name@, self.config.sites@[site_name@]));
        }
        Ok(())
    }

    /// Removes the API key `key_name` of the site; fails if either is missing.
    pub fn delete_api_key(&mut self, site_name: &str, key_name: &str) -> (r: Result<(), ConfigError>)
        ensures
            final(self).config.version == old(self).config.version,
            !old(self).config.sites@.contains_key(site_name@) ==> (r is Err
                && r->Err_0.is_site_not_found(site_name@) && final(self).config == old(self).config),
            old(self).config.sites@.contains_key(site_name@)
                && !old(self).config.sites@[site_name@].api_keys@.contains_key(key_name@) ==> (r is Err
                && r->Err_0.is_secret_not_found(site_name@, key_name@) && final(self).config == old(
                self,
            ).config),
            old(self).config.sites@.contains_key(site_name@)
                && old(self).config.sites@[site_name@].api_keys@.contains_key(key_name@) ==> r is Ok
                && site_replaced(old(self).config.sites@, final(self).config.sites@, site_name@) && {
                let before = old(self).config.sites@[site_name@];
                let after = final(self).config.sites@[site_name@];
                &&& after.api_keys@ == before.api_keys@.remove(key_name@)
                &&& same_except_stamp(after.metadata, before.metadata)
                &&& after.config == before.config
            },
    {
        match self.config.get_site(site_name) {
            None => return Err(ConfigError::SiteNotFound { site: owned(site_name) }),
            Some(s) => {
                if !s.api_keys.contains_key(key_name) {
                    return Err(
                        ConfigError::SecretNotFound { site: owned(site_name), name: owned(key_name) },
                    );
                }
            },
        }
        let mut site = match self.take_site(site_name) {
            Ok(s) => s,
            Err(e) => return Err(e),
        };
        site.remove_api_key(key_name);
        self.config.add_site(owned(site_name), site);
        proof {
            assert(self.config.sites@ =~= old(self).config.sites@.insert(site_name@, self.config.sites@[site_name@]));
        }
        Ok(())
    }

    /// The API keys of the site named `site_name`.
    pub fn get_api_keys(&self, site_name: &str) -> (r: Result<&Table<String>, ConfigError>)
        ensures
            self.config.sites@.contains_key(site_name@) ==> r is Ok && r->Ok_0@
                == self.config.sites@[site_name@].api_keys@,
            !self.config.sites@.contains_key(site_name@) ==> (r is Err && r->Err_0.is_site_not_found(
                site_name@,
            )),
    {
        match self.config.get_site(site_name) {
            Some(s) => Ok(&s.api_keys),
            None => Err(ConfigError::SiteNotFound { site: owned(site_name) }),
        }
    }

    /// The two files to write for the active configuration: the text of
    /// `config.toml` and the `auth.json` document.
    pub fn sync_to_codex(&self, active_config: &CodexActiveConfig) -> (r: (String, Json))
        ensures
            r.0@ == codex_toml(*active_config),
            texts_object(r.1, Map::<Seq<char>, Seq<char>>::empty().insert("OPENAI_API_KEY"@, active_config.api_key@)),
            well_named(r.1),
    {
        (codex_config_toml(active_config), codex_auth(active_config))
    }

    /// Where the store is kept.
    pub fn get_config_file_path(&self) -> (r: &String)
        ensures
            *r == self.codex_config_file,
    {
        &self.codex_config_file
    }

    /// Where the tool's `config.toml` is kept.
    pub fn get_config_toml_path(&self) -> (r: &String)
        ensures
            *r == self.codex_config_toml,
    {
        &self.codex_config_toml
    }

    /// Where the tool's `auth.json` is kept.
    pub fn get_auth_json_path(&self) -> (r: &String)
        ensures
            *r == self.codex_auth_json,
    {
        &self.codex_auth_json
    }
}

/// The store after the secret `name` of the site `site` was set to `value`:
/// every other site and every other secret of that site is kept.
pub open spec fn api_key_set(
    before: Map<Seq<char>, CodexSite>,
    after: Map<Seq<char>, CodexSite>,
    site: Seq<char>,
    name: Seq<char>,
    value: String,
) -> bool {
    &&& site_replaced(before, after, site)
    &&& after[site].api_keys@ == before[site].api_keys@.insert(name, value)
    &&& same_except_stamp(after[site].metadata, before[site].metadata)
    &&& after[site].config == before[site].config
}

} // verus!
