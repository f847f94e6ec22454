//! The closed key schema of the Azure Blob provider: its typed configuration
//! keys and the case-insensitive parse from a raw key name.

use vstd::prelude::*;
use crate::ascii::ascii_lowercase;
use crate::ascii::lower;
use crate::ascii::str_eq;
use crate::error::Error;
use crate::error::Provider;

verus! {

/// A configuration key recognized by the Azure Blob provider. Each variant
/// has exactly one canonical lowercase name.
#[derive(Clone, Copy, Debug, PartialEq, Eq, Structural)]
pub enum AzureConfigKey {
    /// Canonical name "account_name".
    AccountName,
    /// Canonical name "account_key".
    AccountKey,
    /// Canonical name "container_name".
    ContainerName,
    /// Canonical name "endpoint".
    Endpoint,
}

/// The Azure schema's parse function: the typed key whose canonical name the
/// given string matches after ASCII lowercasing, or `None` for an unknown key.
pub open spec fn azure_key_of(s: Seq<char>) -> Option<AzureConfigKey> {
    if lower(s) == "account_name"@ {
        Some(AzureConfigKey::AccountName)
    } else if lower(s) == "account_key"@ {
        Some(AzureConfigKey::AccountKey)
    } else if lower(s) == "container_name"@ {
        Some(AzureConfigKey::ContainerName)
    } else if lower(s) == "endpoint"@ {
        Some(AzureConfigKey::Endpoint)
    } else {
        None
    }
}

impl AzureConfigKey {
    /// Parses a raw key name, case-insensitively, against the Azure schema.
    /// Fails exactly on names the schema does not recognize; the error then
    /// carries the lowercased key and names this provider.
    pub fn from_str(s: &str) -> (r: Result<Self, Error>)
        ensures
            (match r {
                Ok(k) => azure_key_of(s@) == Some(k),
                Err(e) => azure_key_of(s@) is None && (match e {
                    Error::UnknownConfigurationKey { store, key } => store
                        == Provider::MicrosoftAzure && key@ == lower(s@),
                }),
            }),
    {
        let ls = ascii_lowercase(s);
        if str_eq(ls.as_str(), "account_name") {
            Ok(AzureConfigKey::AccountName)
        } else if str_eq(ls.as_str(), "account_key") {
            Ok(AzureConfigKey::AccountKey)
        } else if str_eq(ls.as_str(), "container_name") {
            Ok(AzureConfigKey::ContainerName)
        } else if str_eq(ls.as_str(), "endpoint") {
            Ok(AzureConfigKey::Endpoint)
        } else {
            Err(Error::UnknownConfigurationKey { store: Provider::MicrosoftAzure, key: ls })
        }
    }
}

} // verus!
