use vstd::prelude::*;

use crate::claude_manager::{patched, patched_description, site_replaced};
use crate::error::ConfigError;
use crate::json::{well_named, Json};
use crate::models::{
    provider_same_except_stamp, OpenCodeActiveConfig, OpenCodeConfig, OpenCodeModelInfo,
    OpenCodeProvider,
};
use crate::sync::{light_of, opencode_document, opencode_document_holds};
use crate::table::Table;
use crate::text::{joined, owned};

verus! {

/// The OpenCode provider store, held in memory, with the places of its files.
pub struct OpenCodeConfigManager {
    pub opencode_config_file: String,
    pub opencode_dir: String,
    pub opencode_json: String,
    pub config: OpenCodeConfig,
}

impl OpenCodeConfigManager {
    /// A manager for the store `config`, whose files lie under the home directory `home_dir`.
    pub fn new(home_dir: &str, config: OpenCodeConfig) -> (r: Self)
        ensures
            r.config == config,
            r.opencode_config_file@ == home_dir@ + "/.cc-cli/opencode.json"@,
            r.opencode_dir@ == home_dir@ + "/.opencode"@,
            r.opencode_json@ == home_dir@ + "/.opencode/opencode.json"@,
    {
        OpenCodeConfigManager {
            opencode_config_file: joined(home_dir, "/.cc-cli/opencode.json"),
            opencode_dir: joined(home_dir, "/.opencode"),
            opencode_json: joined(home_dir, "/.opencode/opencode.json"),
            config,
        }
    }

    /// The store as it stands.
    pub fn read_config(&self) -> (r: &OpenCodeConfig)
        ensures
            *r == self.config,
    {
        &self.config
    }

    /// The provider named `provider_name`, if any.
    pub fn get_provider(&self, provider_name: &str) -> (r: Option<&OpenCodeProvider>)
        ensures
            match r {
                Some(p) => self.config.providers@.contains_key(provider_name@) && *p
                    == self.config.providers@[provider_name@],
                None => !self.config.providers@.contains_key(provider_name@),
            },
    {
        self.config.get_provider(provider_name)
    }

    /// Every provider, by name.
    pub fn get_all_providers(&self) -> (r: &Table<OpenCodeProvider>)
        ensures
            r@ == self.config.providers@,
    {
        &self.config.providers
    }

    /// Adds a provider with no model; fails if the name is taken.
    pub fn add_provider(
        &mut self,
        provider_name: String,
        base_url: String,
        api_key: String,
        npm: Option<String>,
        description: Option<String>,
    ) -> (r: Result<(), ConfigError>)
        ensures
            final(self).config.version == old(self).config.version,
            old(self).config.providers@.contains_key(provider_name@) ==> (r is Err
                && r->Err_0.is_provider_exists(provider_name@) && final(self).config == old(
                self,
            ).config),
            !old(self).config.providers@.contains_key(provider_name@) ==> r is Ok
                && final(self).config.providers@ == old(self).config.providers@.insert(
                provider_name@,
                final(self).config.providers@[provider_name@],
            ) && {
                let p = final(self).config.providers@[provider_name@];
                &&& p.name@ == provider_name@
                &&& p.options.base_url == base_url
                &&& p.options.api_key == api_key
                &&& p.npm == npm
                &&& p.metadata.description == description
                &&& p.models@ == Map::<Seq<char>, OpenCodeModelInfo>::empty()
            },
    {
        if self.config.providers.contains_key(provider_name.as_str()) {
            return Err(ConfigError::ProviderExists { provider: provider_name });
        }
        let provider = OpenCodeProvider::new(
            provider_name.clone(),
            base_url,
            api_key,
            npm,
            description,
        );
        self.config.add_provider(provider_name, provider);
        Ok(())
    }

    /// Takes the provider named `provider_name` out of the store for a change.
    fn take_provider(&mut self, provider_name: &str) -> (r: Result<OpenCodeProvider, ConfigError>)
        ensures
            final(self).config.version == old(self).config.version,
            old(self).config.providers@.contains_key(provider_name@) ==> r == Ok::<
                OpenCodeProvider,
                ConfigError,
            >(old(self).config.providers@[provider_name@]) && final(self).config.providers@ == old(
                self,
            ).config.providers@.remove(provider_name@),
            !old(self).config.providers@.contains_key(provider_name@) ==> (r is Err
                && r->Err_0.is_provider_not_found(provider_name@) && final(self).config == old(
                self,
            ).config),
    {
        match self.config.remove_provider(provider_name) {
            Some(p) => Ok(p),
            None => Err(ConfigError::ProviderNotFound { provider: owned(provider_name) }),
        }
    }

    /// Updates the provider's base URL, API key, package and description, each where given.
    pub fn update_provider_metadata(
        &mut self,
        provider_name: &str,
        base_url: Option<String>,
        api_key: Option<String>,
        npm: Option<String>,
        description: Option<String>,
    ) -> (r: Result<(), ConfigError>)
        ensures
            final(self).config.version == old(self).config.version,
            !old(self).config.providers@.contains_key(provider_name@) ==> (r is Err
                && r->Err_0.is_provider_not_found(provider_name@) && final(self).config == old(
                self,
            ).config),
            old(self).config.providers@.contains_key(provider_name@) ==> r is Ok && site_replaced(
                old(self).config.providers@,
                final(self).config.providers@,
                provider_name@,
            ) && {
                let before = old(self).config.providers@[provider_name@];
                let after = final(self).config.providers@[provider_name@];
                &&& after.options.base_url == patched(base_url, before.options.base_url)
                &&& after.options.api_key == patched(api_key, before.options.api_key)
                &&& after.npm == patched_description(npm, before.npm)
                &&& after.metadata.description == patched_description(
                    description,
                    before.metadata.description,
                )
                &&& after.metadata.created_at == before.metadata.created_at
                &&& after.name == before.name
                &&& after.models == before.models
            },
    {
        let mut provider = match self.take_provider(provider_name) {
            Ok(p) => p,
            Err(e) => return Err(e),
        };
        if let Some(url) = base_url {
            provider.set_base_url(url);
        }
        if let Some(key) = api_key {
            provider.set_api_key(key);
        }
        if npm.is_some() {
            provider.npm = npm;
            provider.update_timestamp();
        }
        if description.is_some() {
            provider.metadata.description = description;
            provider.update_timestamp();
        }
        self.config.add_provider(owned(provider_name), provider);
        proof {
            assert(self.config.providers@ =~= old(self).config.providers@.insert(
                provider_name@,
                self.config.providers@[provider_name@],
            ));
        }
        Ok(())
    }

    /// Removes the provider named `provider_name`.
    pub fn delete_provider(&mut self, provider_name: &str) -> (r: Result<(), ConfigError>)
        ensures
            final(self).config.version == old(self).config.version,
            !old(self).config.providers@.contains_key(provider_name@) ==> (r is Err
                && r->Err_0.is_provider_not_found(provider_name@) && final(self).config == old(
                self,
            ).config),
            old(self).config.providers@.contains_key(provider_name@) ==> r is Ok
                && final(self).config.providers@ == old(self).config.providers@.remove(
                provider_name@,
            ),
    {
        match self.take_provider(provider_name) {
            Ok(_) => Ok(()),
            Err(e) => Err(e),
        }
    }

    /// The models of the provider named `provider_name`.
    pub fn get_models(&self, provider_name: &str) -> (r: Result<&Table<OpenCodeModelInfo>, ConfigError>)
        ensures
            self.config.providers@.contains_key(provider_name@) ==> r is Ok && r->Ok_0@
                == self.config.providers@[provider_name@].models@,
            !self.config.providers@.contains_key(provider_name@) ==> (r is Err
                && r->Err_0.is_provider_not_found(provider_name@)),
    {
        match self.config.get_provider(provider_name) {
            Some(p) => Ok(&p.models),
            None => Err(ConfigError::ProviderNotFound { provider: owned(provider_name) }),
        }
    }

    /// Adds the model `model_id` to the provider; fails if the provider is
    /// missing or already has a model of that id.
    pub fn add_model(&mut self, provider_name: &str, model_id: String, model_info: OpenCodeModelInfo) -> (r:
        Result<(), ConfigError>)
        ensures
            final(self).config.version == old(self).config.version,
            !old(self).config.providers@.contains_key(provider_name@) ==> (r is Err
                && r->Err_0.is_provider_not_found(provider_name@) && final(self).config == old(
                self,
            ).config),
            old(self).config.providers@.contains_key(provider_name@)
                && old(self).config.providers@[provider_name@].models@.contains_key(model_id@) ==> (r is Err
                && r->Err_0.is_model_exists(provider_name@, model_id@) && final(self).config == old(
                self,
            ).config),
            old(self).config.providers@.contains_key(provider_name@)
                && !old(self).config.providers@[provider_name@].models@.contains_key(model_id@) ==> r is Ok
                && site_replaced(old(self).config.providers@, final(self).config.providers@, provider_name@)
                && {
                let before = old(self).config.providers@[provider_name@];
                let after = final(self).config.providers@[provider_name@];
                &&& after.models@ == before.models@.insert(model_id@, model_info)
                &&& after.options == before.options
                &&& after.name == before.name
                &&& after.npm == before.npm
                &&& provider_same_except_stamp(after.metadata, before.metadata)
            },
    {
        match self.config.get_provider(provider_name) {
            None => return Err(ConfigError::ProviderNotFound { provider: owned(provider_name) }),
            Some(p) => {
                if p.models.contains_key(model_id.as_str()) {
                    return Err(
                        ConfigError::ModelExists { provider: owned(provider_name), model: model_id },
                    );
                }
            },
        }
        let mut provider = match self.take_provider(provider_name) {
            Ok(p) => p,
            Err(e) => return Err(e),
        };
        provider.add_model(model_id, model_info);
        self.config.add_provider(owned(provider_name), provider);
        proof {
            assert(self.config.providers@ =~= old(self).config.providers@.insert(
                provider_name@,
                self.config.providers@[provider_name@],
            ));
        }
        Ok(())
    }

    /// Removes the model `model_id` of the provider; fails if either is missing.
    pub fn delete_model(&mut self, provider_name: &str, model_id: &str) -> (r: Result<(), ConfigError>)
        ensures
            final(self).config.version == old(self).config.version,
            !old(self).config.providers@.contains_key(provider_name@) ==> (r is Err
                && r->Err_0.is_provider_not_found(provider_name@) && final(self).config == old(
                self,
            ).config),
            old(self).config.providers@.contains_key(provider_name@)
                && !old(self).config.providers@[provider_name@].models@.contains_key(model_id@) ==> (r is Err
                && r->Err_0.is_model_not_found(provider_name@, model_id@) && final(self).config == old(
                self,
            ).config),
            old(self).config.providers@.contains_key(provider_name@)
                && old(self).config.providers@[provider_name@].models@.contains_key(model_id@) ==> r is Ok
                && site_replaced(old(self).config.providers@, final(self).config.providers@, provider_name@)
                && {
                let before = old(self).config.providers@[provider_name@];
                let after = final(self).config.providers@[provider_name@];
                &&& after.models@ == before.models@.remove(model_id@)
                &&& after.options == before.options
                &&& after.name == before.name
                &&& after.npm == before.npm
                &&& provider_same_except_stamp(after.metadata, before.metadata)
            },
    {
        match self.config.get_provider(provider_name) {
            None => return Err(ConfigError::ProviderNotFound { provider: owned(provider_name) }),
            Some(p) => {
                if !p.models.contains_key(model_id) {
                    return Err(
                        ConfigError::ModelNotFound {
                            provider: owned(provider_name),
                            model: owned(model_id),
                        },
                    );
                }
            },
        }
        let mut provider = match self.take_provider(provider_name) {
            Ok(p) => p,
            Err(e) => return Err(e),
        };
        provider.remove_model(model_id);
        self.config.add_provider(owned(provider_name), provider);
        proof {
            assert(self.config.providers@ =~= old(self).config.providers@.insert(
                provider_name@,
                self.config.providers@[provider_name@],
            ));
        }
        Ok(())
    }

    /// The document to write to the tool's global `opencode.json`.
    pub fn sync_to_opencode(&self, active_config: &OpenCodeActiveConfig) -> (r: Json)
        ensures
            opencode_document_holds(self.config, active_config.provider@, light_of(active_config.small_provider), r),
            well_named(r),
    {
        opencode_document(&self.config, active_config)
    }

    /// The document to write to a project's `.opencode/opencode.json`; the
    /// same document as the global one.
    pub fn sync_to_project(&self, active_config: &OpenCodeActiveConfig) -> (r: Json)
        ensures
            opencode_document_holds(self.config, active_config.provider@, light_of(active_config.small_provider), r),
            well_named(r),
    {
        opencode_document(&self.config, active_config)
    }
}

} // verus!
