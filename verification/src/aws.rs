//! The closed key schema of the Amazon S3 provider: its typed configuration
//! keys and the case-insensitive parse from a raw key name.

use vstd::prelude::*;
use crate::ascii::ascii_lowercase;
use crate::ascii::lower;
use crate::ascii::str_eq;
use crate::error::Error;
use crate::error::Provider;

verus! {

/// A configuration key recognized by the Amazon S3 provider. Each variant
/// has exactly one canonical lowercase name.
#[derive(Clone, Copy, Debug, PartialEq, Eq, Structural)]
pub enum AmazonS3ConfigKey {
    /// Canonical name "access_key_id".
    AccessKeyId,
    /// Canonical name "secret_access_key".
    SecretAccessKey,
    /// Canonical name "region".
    Region,
    /// Canonical name "bucket".
    Bucket,
    /// Canonical name "endpoint".
    Endpoint,
}

/// The S3 schema's parse function: the typed key whose canonical name the
/// given string matches after ASCII lowercasing, or `None` for an unknown key.
pub open spec fn s3_key_of(s: Seq<char>) -> Option<AmazonS3ConfigKey> {
    if lower(s) == "access_key_id"@ {
        Some(AmazonS3ConfigKey::AccessKeyId)
    } else if lower(s) == "secret_access_key"@ {
        Some(AmazonS3ConfigKey::SecretAccessKey)
    } else if lower(s) == "region"@ {
        Some(AmazonS3ConfigKey::Region)
    } else if lower(s) == "bucket"@ {
        Some(AmazonS3ConfigKey::Bucket)
    } else if lower(s) == "endpoint"@ {
        Some(AmazonS3ConfigKey::Endpoint)
    } else {
        None
    }
}

impl AmazonS3ConfigKey {
    /// Parses a raw key name, case-insensitively, against the S3 schema.
    /// Fails exactly on names the schema does not recognize; the error then
    /// carries the lowercased key and names this provider.
    pub fn from_str(s: &str) -> (r: Result<Self, Error>)
        ensures
            (match r {
                Ok(k) => s3_key_of(s@) == Some(k),
                Err(e) => s3_key_of(s@) is None && (match e {
                    Error::UnknownConfigurationKey { store, key } => store == Provider::AmazonS3
                        && key@ == lower(s@),
                }),
            }),
    {
        let ls = ascii_lowercase(s);
        if str_eq(ls.as_str(), "access_key_id") {
            Ok(AmazonS3ConfigKey::AccessKeyId)
        } else if str_eq(ls.as_str(), "secret_access_key") {
            Ok(AmazonS3ConfigKey::SecretAccessKey)
        } else if str_eq(ls.as_str(), "region") {
            Ok(AmazonS3ConfigKey::Region)
        } else if str_eq(ls.as_str(), "bucket") {
            Ok(AmazonS3ConfigKey::Bucket)
        } else if str_eq(ls.as_str(), "endpoint") {
            Ok(AmazonS3ConfigKey::Endpoint)
        } else {
            Err(Error::UnknownConfigurationKey { store: Provider::AmazonS3, key: ls })
        }
    }
}

} // verus!
