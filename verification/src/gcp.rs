//! The closed key schema of the Google Cloud Storage provider: its typed
//! configuration keys and the case-insensitive parse from a raw key name.

use vstd::prelude::*;
use crate::ascii::ascii_lowercase;
use crate::ascii::lower;
use crate::ascii::str_eq;
use crate::error::Error;
use crate::error::Provider;

verus! {

/// A configuration key recognized by the Google Cloud Storage provider. Each
/// variant has exactly one canonical lowercase name.
#[derive(Clone, Copy, Debug, PartialEq, Eq, Structural)]
pub enum GoogleConfigKey {
    /// Canonical name "service_account".
    ServiceAccount,
    /// Canonical name "service_account_key".
    ServiceAccountKey,
    /// Canonical name "bucket".
    Bucket,
}

/// The GCS schema's parse function: the typed key whose canonical name the
/// given string matches after ASCII lowercasing, or `None` for an unknown key.
pub open spec fn gcs_key_of(s: Seq<char>) -> Option<GoogleConfigKey> {
    if lower(s) == "service_account"@ {
        Some(GoogleConfigKey::ServiceAccount)
    } else if lower(s) == "service_account_key"@ {
        Some(GoogleConfigKey::ServiceAccountKey)
    } else if lower(s) == "bucket"@ {
        Some(GoogleConfigKey::Bucket)
    } else {
        None
    }
}

impl GoogleConfigKey {
    /// Parses a raw key name, case-insensitively, against the GCS schema.
    /// Fails exactly on names the schema does not recognize; the error then
    /// carries the lowercased key and names this provider.
    pub fn from_str(s: &str) -> (r: Result<Self, Error>)
        ensures
            (match r {
                Ok(k) => gcs_key_of(s@) == Some(k),
                Err(e) => gcs_key_of(s@) is None && (match e {
                    Error::UnknownConfigurationKey { store, key } => store
                        == Provider::GoogleCloudStorage && key@ == lower(s@),
                }),
            }),
    {
        let ls = ascii_lowercase(s);
        if str_eq(ls.as_str(), "service_account") {
            Ok(GoogleConfigKey::ServiceAccount)
        } else if str_eq(ls.as_str(), "service_account_key") {
            Ok(GoogleConfigKey::ServiceAccountKey)
        } else if str_eq(ls.as_str(), "bucket") {
            Ok(GoogleConfigKey::Bucket)
        } else {
            Err(Error::UnknownConfigurationKey { store: Provider::GoogleCloudStorage, key: ls })
        }
    }
}

} // verus!
