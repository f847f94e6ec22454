//! The single error kind of the layer: an unrecognized configuration key,
//! reported together with the provider schema it was validated against.

use vstd::prelude::*;

verus! {

/// The storage backend whose key schema a validation ran against.
#[derive(Clone, Copy, Debug, PartialEq, Eq, Structural)]
pub enum Provider {
    MicrosoftAzure,
    AmazonS3,
    GoogleCloudStorage,
}

/// Raised when a raw key does not match any canonical name in the provider's
/// key schema. Carries the offending key (after case normalization) and the
/// provider whose schema was consulted.
#[derive(Clone, Debug, PartialEq, Eq)]
pub enum Error {
    UnknownConfigurationKey { store: Provider, key: String },
}

impl Error {
    /// The offending key carried by the error.
    pub fn key(&self) -> (r: &String)
        ensures
            (match *self {
                Error::UnknownConfigurationKey { key, .. } => r@ == key@,
            }),
    {
        match self {
            Error::UnknownConfigurationKey { key, .. } => key,
        }
    }

    /// The provider carried by the error.
    pub fn provider(&self) -> (r: Provider)
        ensures
            (match *self {
                Error::UnknownConfigurationKey { store, .. } => r == store,
            }),
    {
        match self {
            Error::UnknownConfigurationKey { store, .. } => *store,
        }
    }
}

} // verus!
