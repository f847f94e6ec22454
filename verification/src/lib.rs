//! Configuration-normalization layer for a multi-provider object-storage
//! client. Raw string key/value settings are case-folded and stored in an
//! immutable snapshot; per-provider validators turn the snapshot into a
//! typed mapping, failing fast on the first unrecognized key.

pub mod ascii;
pub mod aws;
pub mod azure;
pub mod client;
pub mod error;
pub mod gcp;
pub mod options;
pub mod validated;

pub use client::ClientOptions;
pub use error::Error;
pub use error::Provider;
pub use options::RawOption;
pub use options::RawOptionStore;
pub use options::StoreOptions;
pub use validated::ValidatedOptions;
