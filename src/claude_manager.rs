use vstd::prelude::*;

use crate::error::ConfigError;
use crate::json::{well_named, Json};
use crate::models::{
    same_except_stamp, ClaudeActiveConfig, ClaudeConfig, ClaudeSite, VertexConfig,
};
use crate::sync::{claude_settings, claude_settings_holds};
use crate::table::Table;
use crate::text::owned;

verus! {

/// The Anthropic credential store, held in memory, with the places of its files.
pub struct ClaudeConfigManager {
    pub claude_config_file: String,
    pub settings_file: String,
    pub config: ClaudeConfig,
}

/// `v` when given, else `keep`.
pub open spec fn patched<T>(v: Option<T>, keep: T) -> T {
    match v {
        Some(x) => x,
        None => keep,
    }
}

/// The description after a metadata patch: a given description replaces the old one.
pub open spec fn patched_description(v: Option<String>, keep: Option<String>) -> Option<String> {
    match v {
        Some(x) => Some(x),
        None => keep,
    }
}

/// The store after a change of the site `name` that succeeded: that site is
/// replaced by its new value, every other site is kept.
pub open spec fn site_replaced<V>(before: Map<Seq<char>, V>, after: Map<Seq<char>, V>, name: Seq<char>) -> bool {
    &&& before.contains_key(name)
    &&& after == before.insert(name, after[name])
}

impl ClaudeConfigManager {
    /// A manager for the store `config`, kept at `claude_config_file`, whose
    /// tool reads its settings from `settings_file`.
    pub fn new(claude_config_file: String, settings_file: String, config: ClaudeConfig) -> (r: Self)
        ensures
            r.config == config,
            r.claude_config_file == claude_config_file,
            r.settings_file == settings_file,
    {
        ClaudeConfigManager { claude_config_file, settings_file, config }
    }

    /// The store as it stands.
    pub fn read_config(&self) -> (r: &ClaudeConfig)
        ensures
            *r == self.config,
    {
        &self.config
    }

    /// Every site, by name.
    pub fn get_all_sites(&self) -> (r: &Table<ClaudeSite>)
        ensures
            r@ == self.config.sites@,
    {
        &self.config.sites
    }

    /// The site named `site_name`, if any.
    pub fn get_site(&self, site_name: &str) -> (r: Option<&ClaudeSite>)
        ensures
            match r {
                Some(s) => self.config.sites@.contains_key(site_name@) && *s
                    == self.config.sites@[site_name@],
                None => !self.config.sites@.contains_key(site_name@),
            },
    {
        self.config.get_site(site_name)
    }

    /// Adds a site with no token; fails if the name is taken.
    pub fn add_site(&mut self, site_name: String, url: String, description: Option<String>) -> (r:
        Result<(), ConfigError>)
        ensures
            final(self).config.version == old(self).config.version,
            old(self).config.sites@.contains_key(site_name@) ==> (r is Err && r->Err_0.is_site_exists(
                site_name@,
            ) && final(self).config == old(self).config),
            !old(self).config.sites@.contains_key(site_name@) ==> r is Ok && final(self).config.sites@
                == old(self).config.sites@.insert(site_name@, final(self).config.sites@[site_name@])
                && {
                let s = final(self).config.sites@[site_name@];
                &&& s.metadata.url == url
                &&& s.metadata.description == description
                &&& s.tokens@ == Map::<Seq<char>, String>::empty()
                &&& s.config.base_url is None
                &&& s.config.model is None
                &&& !s.config.vertex.enabled
            },
    {
        if self.config.sites.contains_key(site_name.as_str()) {
            return Err(ConfigError::SiteExists { site: site_name });
        }
        let site = ClaudeSite::new(url, description);
        self.config.add_site(site_name, site);
        Ok(())
    }

    /// Takes the site named `site_name` out of the store for a change.
    fn take_site(&mut self, site_name: &str) -> (r: Result<ClaudeSite, ConfigError>)
        ensures
            final(self).config.version == old(self).config.version,
            old(self).config.sites@.contains_key(site_name@) ==> r == Ok::<ClaudeSite, ConfigError>(
                old(self).config.sites@[site_name@],
            ) && final(self).config.sites@ == old(self).config.sites@.remove(site_name@),
            !old(self).config.sites@.contains_key(site_name@) ==> (r is Err
                && r->Err_0.is_site_not_found(site_name@) && final(self).config == old(self).config),
    {
        match self.config.remove_site(site_name) {
            Some(s) => Ok(s),
            None => {
                proof {
                    assert(self.config.sites@ =~= old(self).config.sites@);
                }
                Err(ConfigError::SiteNotFound { site: owned(site_name) })
            },
        }
    }

    /// Updates the site's URL and description, each where given.
    pub fn update_site_metadata(
        &mut self,
        site_name: &str,
        url: Option<String>,
        description: Option<String>,
    ) -> (r: Result<(), ConfigError>)
        ensures
            final(self).config.version == old(self).config.version,
            !old(self).config.sites@.contains_key(site_name@) ==> (r is Err
                && r->Err_0.is_site_not_found(site_name@) && final(self).config == old(self).config),
            old(self).config.sites@.contains_key(site_name@) ==> r is Ok && site_replaced(
                old(self).config.sites@,
                final(self).config.sites@,
                site_name@,
            ) && {
                let before = old(self).config.sites@[site_name@];
                let after = final(self).config.sites@[site_name@];
                &&& after.metadata.url == patched(url, before.metadata.url)
                &&& after.metadata.description == patched_description(description, before.metadata.description)
                &&& after.metadata.created_at == before.metadata.created_at
                &&& after.tokens == before.tokens
                &&& after.config == before.config
            },
    {
        let mut site = match self.take_site(site_name) {
            Ok(s) => s,
            Err(e) => return Err(e),
        };
        if let Some(new_url) = url {
            site.metadata.url = new_url;
        }
        if let Some(new_desc) = description {
            site.metadata.description = Some(new_desc);
        }
        site.update_timestamp();
        self.config.add_site(owned(site_name), site);
        proof {
            assert(self.config.sites@ =~= old(self).config.sites@.insert(site_name@, self.config.sites@[site_name@]));
        }
        Ok(())
    }

    /// Updates the site's settings, each where given.
    pub fn update_site_config(
        &mut self,
        site_name: &str,
        base_url: Option<String>,
        model: Option<String>,
        vertex: Option<VertexConfig>,
    ) -> (r: Result<(), ConfigError>)
        ensures
            final(self).config.version == old(self).config.version,
            !old(self).config.sites@.contains_key(site_name@) ==> (r is Err
                && r->Err_0.is_site_not_found(site_name@) && final(self).config == old(self).config),
            old(self).config.sites@.contains_key(site_name@) ==> r is Ok && site_replaced(
                old(self).config.sites@,
                final(self).config.sites@,
                site_name@,
            ) && {
                let before = old(self).config.sites@[site_name@];
                let after = final(self).config.sites@[site_name@];
                &&& after.config.base_url == patched_description(base_url, before.config.base_url)
                &&& after.config.model == patched_description(model, before.config.model)
                &&& after.config.vertex == patched(vertex, before.config.vertex)
                &&& same_except_stamp(after.metadata, before.metadata)
                &&& after.tokens == before.tokens
            },
    {
        let mut site = match self.take_site(site_name) {
            Ok(s) => s,
            Err(e) => return Err(e),
        };
        if let Some(u) = base_url {
            site.config.base_url = Some(u);
        }
        if let Some(m) = model {
            site.config.model = Some(m);
        }
        if let Some(v) = vertex {
            site.config.vertex = v;
        }
        site.update_timestamp();
        self.config.add_site(owned(site_name), site);
        proof {
            assert(self.config.sites@ =~= old(self).config.sites@.insert(site_name@, self.config.sites@[site_name@]));
        }
        Ok(())
    }

    /// Removes the site named `site_name`.
    pub fn remove_site(&mut self, site_name: &str) -> (r: Result<(), ConfigError>)
        ensures
            final(self).config.version == old(self).config.version,
            !old(self).config.sites@.contains_key(site_name@) ==> (r is Err
                && r->Err_0.is_site_not_found(site_name@) && final(self).config == old(self).config),
            old(self).config.sites@.contains_key(site_name@) ==> r is Ok && final(self).config.sites@
                == old(self).config.sites@.remove(site_name@),
    {
        match self.take_site(site_name) {
            Ok(_) => Ok(()),
            Err(e) => Err(e),
        }
    }

    /// Adds the token `token_name` to the site; fails if the site is missing
    /// or already has a token of that name.
    pub fn add_token(&mut self, site_name: &str, token_name: String, token: String) -> (r: Result<
        (),
        ConfigError,
    >)
        ensures
            final(self).config.version == old(self).config.version,
            !old(self).config.sites@.contains_key(site_name@) ==> (r is Err
                && r->Err_0.is_site_not_found(site_name@) && final(self).config == old(self).config),
            old(self).config.sites@.contains_key(site_name@)
                && old(self).config.sites@[site_name@].tokens@.contains_key(token_name@) ==> (r is Err
                && r->Err_0.is_secret_exists(site_name@, token_name@) && final(self).config == old(
                self,
            ).config),
            old(self).config.sites@.contains_key(site_name@)
                && !old(self).config.sites@[site_name@].tokens@.contains_key(token_name@) ==> r is Ok
                && token_set(old(self).config.sites@, final(self).config.sites@, site_name@, token_name@, token),
    {
        match self.config.get_site(site_name) {
            None => return Err(ConfigError::SiteNotFound { site: owned(site_name) }),
            Some(s) => {
                if s.tokens.contains_key(token_name.as_str()) {
                    return Err(
                        ConfigError::SecretExists { site: owned(site_name), name: token_name },
                    );
                }
            },
        }
        let mut site = match self.take_site(site_name) {
            Ok(s) => s,
            Err(e) => return Err(e),
        };
        site.add_token(token_name, token);
        self.config.add_site(owned(site_name), site);
        proof {
            assert(self.config.sites@ =~= old(self).config.sites@.insert(site_name@, self.config.sites@[site_name@]));
        }
        Ok(())
    }

    /// Replaces the token `token_name` of the site; fails if either is missing.
    pub fn update_token(&mut self, site_name: &str, token_name: &str, new_token: String) -> (r:
        Result<(), ConfigError>)
        ensures
            final(self).config.version == old(self).config.version,
            !old(self).config.sites@.contains_key(site_name@) ==> (r is Err
                && r->Err_0.is_site_not_found(site_name@) && final(self).config == old(self).config),
            old(self).config.sites@.contains_key(site_name@)
                && !old(self).config.sites@[site_name@].tokens@.contains_key(token_name@) ==> (r is Err
                && r->Err_0.is_secret_not_found(site_name@, token_name@) && final(self).config == old(
                self,
            ).config),
            old(self).config.sites@.contains_key(site_name@)
                && old(self).config.sites@[site_name@].tokens@.contains_key(token_name@) ==> r is Ok
                && token_set(old(self).config.sites@, final(self).config.sites@, site_name@, token_name@, new_token),
    {
        match self.config.get_site(site_name) {
            None => return Err(ConfigError::SiteNotFound { site: owned(site_name) }),
            Some(s) => {
                if !s.tokens.contains_key(token_name) {
                    return Err(
                        ConfigError::SecretNotFound { site: owned(site_name), name: owned(token_name) },
                    );
                }
            },
        }
        let mut site = match self.take_site(site_name) {
            Ok(s) => s,
            Err(e) => return Err(e),
        };
        site.add_token(owned(token_name), new_token);
        self.config.add_site(owned(site_name), site);
        proof {
            assert(self.config.sites@ =~= old(self).config.sites@.insert(site_name@, self.config.sites@[site_name@]));
        }
        Ok(())
    }

    /// Removes the token `token_name` of the site; fails if either is missing.
    pub fn remove_token(&mut self, site_name: &str, token_name: &str) -> (r: Result<(), ConfigError>)
        ensures
            final(self).config.version == old(self).config.version,
            !old(self).config.sites@.contains_key(site_name@) ==> (r is Err
                && r->Err_0.is_site_not_found(site_name@) && final(self).config == old(self).config),
            old(self).config.sites@.contains_key(site_name@)
                && !old(self).config.sites@[site_name@].tokens@.contains_key(token_name@) ==> (r is Err
                && r->Err_0.is_secret_not_found(site_name@, token_name@) && final(self).config == old(
                self,
            ).config),
            old(self).config.sites@.contains_key(site_name@)
                && old(self).config.sites@[site_name@].tokens@.contains_key(token_name@) ==> r is Ok
                && site_replaced(old(self).config.sites@, final(self).config.sites@, site_name@) && {
                let before = old(self).config.sites@[site_name@];
                let after = final(self).config.sites@[site_name@];
                &&& after.tokens@ == before.tokens@.remove(token_name@)
                &&& same_except_stamp(after.metadata, before.metadata)
                &&& after.config == before.config
            },
    {
        match self.config.get_site(site_name) {
            None => return Err(ConfigError::SiteNotFound { site: owned(site_name) }),
            Some(s) => {
                if !s.tokens.contains_key(token_name) {
                    return Err(
                        ConfigError::SecretNotFound { site: owned(site_name), name: owned(token_name) },
                    );
                }
            },
        }
        let mut site = match self.take_site(site_name) {
            Ok(s) => s,
            Err(e) => return Err(e),
        };
        site.remove_token(token_name);
        self.config.add_site(owned(site_name), site);
        proof {
            assert(self.config.sites@ =~= old(self).config.sites@.insert(site_name@, self.config.sites@[site_name@]));
        }
        Ok(())
    }

    /// The tokens of the site named `site_name`.
    pub fn get_tokens(&self, site_name: &str) -> (r: Result<&Table<String>, ConfigError>)
        ensures
            self.config.sites@.contains_key(site_name@) ==> r is Ok && r->Ok_0@
                == self.config.sites@[site_name@].tokens@,
            !self.config.sites@.contains_key(site_name@) ==> (r is Err && r->Err_0.is_site_not_found(
                site_name@,
            )),
    {
        match self.config.get_site(site_name) {
            Some(s) => Ok(&s.tokens),
            None => Err(ConfigError::SiteNotFound { site: owned(site_name) }),
        }
    }

    /// The settings document to write, given the one found at
    /// `settings_file` (`None` when it is missing or unreadable).
    pub fn sync_to_settings(&self, existing: Option<Json>, active_config: &ClaudeActiveConfig) -> (r:
        Json)
        requires
            existing matches Some(j) ==> well_named(j),
        ensures
            claude_settings_holds(existing, *active_config, r),
            well_named(r),
    {
        claude_settings(existing, active_config)
    }

    /// Where the store is kept.
    pub fn get_config_file_path(&self) -> (r: &String)
        ensures
            *r == self.claude_config_file,
    {
        &self.claude_config_file
    }

    /// Where the tool's settings document is kept.
    pub fn get_settings_file_path(&self) -> (r: &String)
        ensures
            *r == self.settings_file,
    {
        &self.settings_file
    }
}

/// The store after the secret `name` of the site `site` was set to `value`:
/// every other site and every other secret of that site is kept.
pub open spec fn token_set(
    before: Map<Seq<char>, ClaudeSite>,
    after: Map<Seq<char>, ClaudeSite>,
    site: Seq<char>,
    name: Seq<char>,
    value: String,
) -> bool {
    &&& site_replaced(before, after, site)
    &&& after[site].tokens@ == before[site].tokens@.insert(name, value)
    &&& same_except_stamp(after[site].metadata, before[site].metadata)
    &&& after[site].config == before[site].config
}

} // verus!
