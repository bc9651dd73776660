use vstd::prelude::*;

use crate::text::{joined, owned};

verus! {

/// Why an operation on the stores or the references failed.
#[derive(Debug)]
pub enum ConfigError {
    /// No site of this name in the store.
    SiteNotFound { site: String },
    /// The site has no secret of this name.
    SecretNotFound { site: String, name: String },
    /// No provider of this name in the store.
    ProviderNotFound { provider: String },
    /// The provider has no model of this id.
    ModelNotFound { provider: String, model: String },
    /// A site of this name is already stored.
    SiteExists { site: String },
    /// The site already has a secret of this name.
    SecretExists { site: String, name: String },
    /// A provider of this name is already stored.
    ProviderExists { provider: String },
    /// The provider already has a model of this id.
    ModelExists { provider: String, model: String },
    /// A document could not be read or written in its expected shape.
    Serialization { detail: String },
    /// A file or directory could not be read or written.
    Io { detail: String },
}

impl ConfigError {
    /// Whether this is one of the lookup failures.
    pub open spec fn is_not_found(self) -> bool {
        ||| self is SiteNotFound
        ||| self is SecretNotFound
        ||| self is ProviderNotFound
        ||| self is ModelNotFound
    }

    /// Whether this is one of the duplicate-add failures.
    pub open spec fn is_already_exists(self) -> bool {
        ||| self is SiteExists
        ||| self is SecretExists
        ||| self is ProviderExists
        ||| self is ModelExists
    }

    /// A lookup of the site `site` failed.
    pub open spec fn is_site_not_found(self, site: Seq<char>) -> bool {
        self matches ConfigError::SiteNotFound { site: s } && s@ == site
    }

    /// A lookup of the secret `name` of the site `site` failed.
    pub open spec fn is_secret_not_found(self, site: Seq<char>, name: Seq<char>) -> bool {
        self matches ConfigError::SecretNotFound { site: s, name: n } && s@ == site && n@ == name
    }

    /// A lookup of the provider `provider` failed.
    pub open spec fn is_provider_not_found(self, provider: Seq<char>) -> bool {
        self matches ConfigError::ProviderNotFound { provider: p } && p@ == provider
    }

    /// A lookup of the model `model` of the provider `provider` failed.
    pub open spec fn is_model_not_found(self, provider: Seq<char>, model: Seq<char>) -> bool {
        self matches ConfigError::ModelNotFound { provider: p, model: m } && p@ == provider && m@
            == model
    }

    /// The site `site` was already there.
    pub open spec fn is_site_exists(self, site: Seq<char>) -> bool {
        self matches ConfigError::SiteExists { site: s } && s@ == site
    }

    /// The secret `name` of the site `site` was already there.
    pub open spec fn is_secret_exists(self, site: Seq<char>, name: Seq<char>) -> bool {
        self matches ConfigError::SecretExists { site: s, name: n } && s@ == site && n@ == name
    }

    /// The provider `provider` was already there.
    pub open spec fn is_provider_exists(self, provider: Seq<char>) -> bool {
        self matches ConfigError::ProviderExists { provider: p } && p@ == provider
    }

    /// The model `model` of the provider `provider` was already there.
    pub open spec fn is_model_exists(self, provider: Seq<char>, model: Seq<char>) -> bool {
        self matches ConfigError::ModelExists { provider: p, model: m } && p@ == provider && m@
            == model
    }

    /// A sentence for the user.
    pub fn message(&self) -> String {
        match self {
            ConfigError::SiteNotFound { site } => quoted("site '", site, "' does not exist"),
            ConfigError::SecretNotFound { site, name } => {
                let head = quoted("secret '", name, "' does not exist in site '");
                let tail = quoted("", site, "'");
                joined(head.as_str(), tail.as_str())
            },
            ConfigError::ProviderNotFound { provider } => quoted(
                "provider '",
                provider,
                "' does not exist",
            ),
            ConfigError::ModelNotFound { provider, model } => {
                let head = quoted("model '", model, "' does not exist in provider '");
                let tail = quoted("", provider, "'");
                joined(head.as_str(), tail.as_str())
            },
            ConfigError::SiteExists { site } => quoted("site '", site, "' already exists"),
            ConfigError::SecretExists { site, name } => {
                let head = quoted("secret '", name, "' already exists in site '");
                let tail = quoted("", site, "'");
                joined(head.as_str(), tail.as_str())
            },
            ConfigError::ProviderExists { provider } => quoted(
                "provider '",
                provider,
                "' already exists",
            ),
            ConfigError::ModelExists { provider, model } => {
                let head = quoted("model '", model, "' already exists in provider '");
                let tail = quoted("", provider, "'");
                joined(head.as_str(), tail.as_str())
            },
            ConfigError::Serialization { detail } => joined("malformed document: ", detail.as_str()),
            ConfigError::Io { detail } => joined("write failed: ", detail.as_str()),
        }
    }
}

fn quoted(before: &str, name: &String, after: &str) -> (r: String)
    ensures
        r@ == before@ + name@ + after@,
{
    let mut r = owned(before);
    r.append(name.as_str());
    r.append(after);
    r
}

} // verus!
