use vstd::prelude::*;

use crate::error::ConfigError;
use crate::claude_manager::{patched, patched_description, site_replaced};
use crate::models::{gemini_settings_unset, same_except_stamp, GeminiActiveConfig, GeminiConfig, GeminiSite};
use crate::sync::{gemini_env, gemini_env_text};
use crate::table::Table;
use crate::text::{joined, owned};

verus! {

/// The Gemini credential store, held in memory, with the places of its files.
pub struct GeminiConfigManager {
    pub config_dir: String,
    pub gemini_config_file: String,
    pub gemini_dir: String,
    pub gemini_env_file: String,
    pub gemini_settings_file: String,
    pub config: GeminiConfig,
}

impl GeminiConfigManager {
    /// A manager for the store `config`, whose files lie under the home directory `home_dir`.
    pub fn new(home_dir: &str, config: GeminiConfig) -> (r: Self)
        ensures
            r.config == config,
            r.config_dir@ == home_dir@ + "/.cc-cli"@,
            r.gemini_config_file@ == home_dir@ + "/.cc-cli/gemini.json"@,
            r.gemini_dir@ == home_dir@ + "/.gemini"@,
            r.gemini_env_file@ == home_dir@ + "/.gemini/.env"@,
            r.gemini_settings_file@ == home_dir@ + "/.gemini/settings.json"@,
    {
        GeminiConfigManager {
            config_dir: joined(home_dir, "/.cc-cli"),
            gemini_config_file: joined(home_dir, "/.cc-cli/gemini.json"),
            gemini_dir: joined(home_dir, "/.gemini"),
            gemini_env_file: joined(home_dir, "/.gemini/.env"),
            gemini_settings_file: joined(home_dir, "/.gemini/settings.json"),
            config,
        }
    }

    /// The store as it stands.
    pub fn read_config(&self) -> (r: &GeminiConfig)
        ensures
            *r == self.config,
    {
        &self.config
    }

    /// Every site, by name.
    pub fn get_all_sites(&self) -> (r: &Table<GeminiSite>)
        ensures
            r@ == self.config.sites@,
    {
        &self.config.sites
    }

    /// The site named `site_name`, if any.
    pub fn get_site(&self, site_name: &str) -> (r: Option<&GeminiSite>)
        ensures
            match r {
                Some(s) => self.config.sites@.contains_key(site_name@) && *s
                    == self.config.sites@[site_name@],
                None => !self.config.sites@.contains_key(site_name@),
            },
    {
        self.config.get_site(site_name)
    }

    /// Adds a site with no API key; fails if the name is taken.
    pub fn add_site(&mut self, site_name: String, url: String, description: Option<String>) -> (r:
        Result<(), ConfigError>)
        ensures
            final(self).config.version == old(self).config.version,
            old(self).config.sites@.contains_key(site_name@) ==> (r is Err && r->Err_0.is_site_exists(
                site_name@,
            ) && final(self).config == old(self).config),
            !old(self).config.sites@.contains_key(site_name@) ==> r is Ok && final(self).config.sites@
                == old(self).config.sites@.insert(site_name@, final(self).config.sites@[site_name@])
                && {
                let s = final(self).config.sites@[site_name@];
                &&& s.metadata.url == url
                &&& s.metadata.description == description
                &&& s.api_keys@ == Map::<Seq<char>, String>::empty()
                &&& gemini_settings_unset(s.config)
            },
    {
        if self.config.sites.contains_key(site_name.as_str()) {
            return Err(ConfigError::SiteExists { site: site_name });
        }
        let site = GeminiSite::new(url, description);
        self.config.add_site(site_name, site);
        Ok(())
    }

    /// Takes the site named `site_name` out of the store for a change.
    fn take_site(&mut self, site_name: &str) -> (r: Result<GeminiSite, ConfigError>)
        ensures
            final(self).config.version == old(self).config.version,
            old(self).config.sites@.contains_key(site_name@) ==> r == Ok::<GeminiSite, ConfigError>(
                old(self).config.sites@[site_name@],
            ) && final(self).config.sites@ == old(self).config.sites@.remove(site_name@),
            !old(self).config.sites@.contains_key(site_name@) ==> (r is Err
                && r->Err_0.is_site_not_found(site_name@) && final(self).config == old(self).config),
    {
        match self.config.remove_site(site_name) {
            Some(s) => Ok(s),
            None => {
                proof {
                    assert(self.config.sites@ =~= old(self).config.sites@);
                }
                Err(ConfigError::SiteNotFound { site: owned(site_name) })
            },
        }
    }

    /// Updates the site's URL and description, each where given.
    pub fn update_site_metadata(
        &mut self,
        site_name: &str,
        url: Option<String>,
        description: Option<String>,
    ) -> (r: Result<(), ConfigError>)
        ensures
            final(self).config.version == old(self).config.version,
            !old(self).config.sites@.contains_key(site_name@) ==> (r is Err
                && r->Err_0.is_site_not_found(site_name@) && final(self).config == old(self).config),
            old(self).config.sites@.contains_key(site_name@) ==> r is Ok && site_replaced(
                old(self).config.sites@,
                final(self).config.sites@,
                site_name@,
            ) && {
                let before = old(self).config.sites@[site_name@];
                let after = final(self).config.sites@[site_name@];
                &&& after.metadata.url == patched(url, before.metadata.url)
                &&& after.metadata.description == patched_description(description, before.metadata.description)
                &&& after.metadata.created_at == before.metadata.created_at
                &&& after.api_keys == before.api_keys
                &&& after.config == before.config
            },
    {
        let mut site = match self.take_site(site_name) {
            Ok(s) => s,
            Err(e) => return Err(e),
        };
        if let Some(new_url) = url {
            site.metadata.url = new_url;
        }
        if let Some(new_desc) = description {
            site.metadata.description = Some(new_desc);
        }
        site.update_timestamp();
        self.config.add_site(owned(site_name), site);
        proof {
            assert(self.config.sites@ =~= old(self).config.sites@.insert(site_name@, self.config.sites@[site_name@]));
        }
        Ok(())
    }

    /// Updates the site's settings, each where given.
    pub fn update_site_config(
        &mut self,
        site_name: &str,
        base_url: Option<String>,
        model: Option<String>,
    ) -> (r: Result<(), ConfigError>)
        ensures
            final(self).config.version == old(self).config.version,
            !old(self).config.sites@.contains_key(site_name@) ==> (r is Err
                && r->Err_0.is_site_not_found(site_name@) && final(self).config == old(self).config),
            old(self).config.sites@.contains_key(site_name@) ==> r is Ok && site_replaced(
                old(self).config.sites@,
                final(self).config.sites@,
                site_name@,
            ) && {
                let before = old(self).config.sites@[site_name@];
                let after = final(self).config.sites@[site_name@];
                &&& after.config.base_url == patched_description(base_url, before.config.base_url)
                &&& after.config.model == patched_description(model, before.config.model)
                &&& same_except_stamp(after.metadata, before.metadata)
                &&& after.api_keys == before.api_keys
            },
    {
        let mut site = match self.take_site(site_name) {
            Ok(s) => s,
            Err(e) => return Err(e),
        };
        if let Some(v) = base_url {
            site.config.base_url = Some(v);
        }
        if let Some(v) = model {
            site.config.model = Some(v);
        }
        site.update_timestamp();
        self.config.add_site(owned(site_name), site);
        proof {
            assert(self.config.sites@ =~= old(self).config.sites@.insert(site_name@, self.config.sites@[site_name@]));
        }
        Ok(())
    }

    /// Removes the site named `site_name`.
    pub fn delete_site(&mut self, site_name: &str) -> (r: Result<(), ConfigError>)
        ensures
            final(self).config.version == old(self).config.version,
            !old(self).config.sites@.contains_key(site_name@) ==> (r is Err
                && r->Err_0.is_site_not_found(site_name@) && final(self).config == old(self).config),
            old(self).config.sites@.contains_key(site_name@) ==> r is Ok && final(self).config.sites@
                == old(self).config.sites@.remove(site_name@),
    {
        match self.take_site(site_name) {
            Ok(_) => Ok(()),
            Err(e) => Err(e),
        }
    }

    /// Adds the API key `key_name` to the site; fails if the site is missing
    /// or already has an API key of that name.
    pub fn add_api_key(&mut self, site_name: &str, key_name: String, api_key: String) -> (r: Result<
        (),
        ConfigError,
    >)
        ensures
            final(self).config.version == old(self).config.version,
            !old(self).config.sites@.contains_key(site_name@) ==> (r is Err
                && r->Err_0.is_site_not_found(site_name@) && final(self).config == old(self).config),
            old(self).config.sites@.contains_key(site_name@)
                && old(self).config.sites@[site_name@].api_keys@.contains_key(key_name@) ==> (r is Err
                && r->Err_0.is_secret_exists(site_name@, key_name@) && final(self).config == old(
                self,
            ).config),
            old(self).config.sites@.contains_key(site_name@)
                && !old(self).config.sites@[site_name@].api_keys@.contains_key(key_name@) ==> r is Ok
                && api_key_set(old(self).config.sites@, final(self).config.sites@, site_name@, key_name@, api_key),
    {
        match self.config.get_site(site_name) {
            None => return Err(ConfigError::SiteNotFound { site: owned(site_name) }),
            Some(s) => {
                if s.api_keys.contains_key(key_name.as_str()) {
                    return Err(
                        ConfigError::SecretExists { site: owned(site_name), name: key_name },
                    );
                }
            },
        }
        let mut site = match self.take_site(site_name) {
            Ok(s) => s,
            Err(e) => return Err(e),
        };
        site.add_api_key(key_name, api_key);
        self.config.add_site(owned(site_name), site);
        proof {
            assert(self.config.sites@ =~= old(self).config.sites@.insert(site_name@, self.config.sites@[site_name@]));
        }
        Ok(())
    }

    /// Replaces the API key `key_name` of the site; fails if either is missing.
    pub fn update_api_key(&mut self, site_name: &str, key_name: &str, new_api_key: String) -> (r:
        Result<(), ConfigError>)
        ensures
            final(self).config.version == old(self).config.version,
            !old(self).config.sites@.contains_key(site_name@) ==> (r is Err
                && r->Err_0.is_site_not_found(site_name@) && final(self).config == old(self).config),
            old(self).config.sites@.contains_key(site_name@)
                && !old(self).config.sites@[site_name@].api_keys@.contains_key(key_name@) ==> (r is Err
                && r->Err_0.is_secret_not_found(site_name@, key_name@) && final(self).config == old(
                self,
            ).config),
            old(self).config.sites@.contains_key(site_name@)
                && old(self).config.sites@[site_name@].api_keys@.contains_key(key_name@) ==> r is Ok
                && api_key_set(old(self).config.sites@, final(self).config.sites@, site_name@, key_name@, new_api_key),
    {
        match self.config.get_site(site_name) {
            None => return Err(ConfigError::SiteNotFound { site: owned(site_name) }),
            Some(s) => {
                if !s.api_keys.contains_key(key_name) {
                    return Err(
                        ConfigError::SecretNotFound { site: owned(site_name), name: owned(key_name) },
                    );
                }
            },
        }
        let mut site = match self.take_site(site_name) {
            Ok(s) => s,
            Err(e) => return Err(e),
        };
        site.add_api_key(owned(key_name), new_api_key);
        self.config.add_site(owned(site_name), site);
        proof {
            assert(self.config.sites@ =~= old(self).config.sites@.insert(site_name@, self.config.sites@[site_name@]));
        }
        Ok(())
    }

    /// Removes the API key `key_name` of the site; fails if either is missing.
    pub fn delete_api_key(&mut self, site_name: &str, key_name: &str) -> (r: Result<(), ConfigError>)
        ensures
            final(self).config.version == old(self).config.version,
            !old(self).config.sites@.contains_key(site_name@) ==> (r is Err
                && r->Err_0.is_site_not_found(site_name@) && final(self).config == old(self).config),
            old(self).config.sites@.contains_key(site_name@)
                && !old(self).config.sites@[site_name@].api_keys@.contains_key(key_name@) ==> (r is Err
                && r->Err_0.is_secret_not_found(site_name@, key_name@) && final(self).config == old(
                self,
            ).config),
            old(self).config.sites@.contains_key(site_name@)
                && old(self).config.sites@[site_name@].api_keys@.contains_key(key_name@) ==> r is Ok
                && site_replaced(old(self).config.sites@, final(self).config.sites@, site_name@) && {
                let before = old(self).config.sites@[site_name@];
                let after = final(self).config.sites@[site_name@];
                &&& after.api_keys@ == before.api_keys@.remove(key_name@)
                &&& same_except_stamp(after.metadata, before.metadata)
                &&& after.config == before.config
            },
    {
        match self.config.get_site(site_name) {
            None => return Err(ConfigError::SiteNotFound { site: owned(site_name) }),
            Some(s) => {
                if !s.api_keys.contains_key(key_name) {
                    return Err(
                        ConfigError::SecretNotFound { site: owned(site_name), name: owned(key_name) },
                    );
                }
            },
        }
        let mut site = match self.take_site(site_name) {
            Ok(s) => s,
            Err(e) => return Err(e),
        };
        site.remove_api_key(key_name);
        self.config.add_site(owned(site_name), site);
        proof {
            assert(self.config.sites@ =~= old(self).config.sites@.insert(site_name@, self.config.sites@[site_name@]));
        }
        Ok(())
    }

    /// The API keys of the site named `site_name`.
    pub fn get_api_keys(&self, site_name: &str) -> (r: Result<&Table<String>, ConfigError>)
        ensures
            self.config.sites@.contains_key(site_name@) ==> r is Ok && r->Ok_0@
                == self.config.sites@[site_name@].api_keys@,
            !self.config.sites@.contains_key(site_name@) ==> (r is Err && r->Err_0.is_site_not_found(
                site_name@,
            )),
    {
        match self.config.get_site(site_name) {
            Some(s) => Ok(&s.api_keys),
            None => Err(ConfigError::SiteNotFound { site: owned(site_name) }),
        }
    }

    /// The text of the `.env` file to write for the active configuration.
    pub fn sync_to_gemini(&self, active_config: &GeminiActiveConfig) -> (r: String)
        ensures
            r@ == gemini_env_text(*active_config),
    {
        gemini_env(active_config)
    }

    /// Where the store is kept.
    pub fn get_config_file_path(&self) -> (r: &String)
        ensures
            *r == self.gemini_config_file,
    {
        &self.gemini_config_file
    }

    /// Where the tool's `.env` file is kept.
    pub fn get_env_file_path(&self) -> (r: &String)
        ensures
            *r == self.gemini_env_file,
    {
        &self.gemini_env_file
    }

    /// Where the tool's own settings document is kept.
    pub fn get_settings_file_path(&self) -> (r: &String)
        ensures
            *r == self.gemini_settings_file,
    {
        &self.gemini_settings_file
    }
}

/// The store after the secret `name` of the site `site` was set to `value`:
/// every other site and every other secret of that site is kept.
pub open spec fn api_key_set(
    before: Map<Seq<char>, GeminiSite>,
    after: Map<Seq<char>, GeminiSite>,
    site: Seq<char>,
    name: Seq<char>,
    value: String,
) -> bool {
    &&& site_replaced(before, after, site)
    &&& after[site].api_keys@ == before[site].api_keys@.insert(name, value)
    &&& same_except_stamp(after[site].metadata, before[site].metadata)
    &&& after[site].config == before[site].config
}

} // verus!
