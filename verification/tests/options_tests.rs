use store_options::aws::AmazonS3ConfigKey;
use store_options::azure::AzureConfigKey;
use store_options::gcp::GoogleConfigKey;
use store_options::ClientOptions;
use store_options::Error;
use store_options::Provider;
use store_options::RawOption;
use store_options::StoreOptions;

fn pair(key: &str, value: &str) -> RawOption {
    RawOption { key: String::from(key), value: String::from(value) }
}

#[test]
fn case_insensitive_single_pair() {
    let upper = StoreOptions::iter_2_opts(vec![pair("KeY", "v")]);
    let lower = StoreOptions::iter_2_opts(vec![pair("key", "v")]);
    assert_eq!(upper.len(), 1);
    assert_eq!(lower.len(), 1);
    assert_eq!(upper.get("key").map(String::as_str), Some("v"));
    assert_eq!(lower.get("key").map(String::as_str), Some("v"));
    // Reads are case-insensitive too.
    assert_eq!(upper.get("KEY").map(String::as_str), Some("v"));
    // The stored key itself is the lowercase form.
    assert_eq!(upper.get_entry(0).key, "key");
    assert_eq!(lower.get_entry(0).key, "key");
}

#[test]
fn last_write_wins() {
    let store = StoreOptions::iter_2_opts(vec![pair("region", "a"), pair("REGION", "b")]);
    assert_eq!(store.len(), 1);
    assert_eq!(store.get_entry(0).key, "region");
    assert_eq!(store.get("region").map(String::as_str), Some("b"));
}

#[test]
fn first_insertion_order_is_kept() {
    let store = StoreOptions::iter_2_opts(vec![pair("b", "1"), pair("a", "2"), pair("B", "3")]);
    assert_eq!(store.len(), 2);
    assert_eq!(store.get_entry(0).key, "b");
    assert_eq!(store.get_entry(0).value, "3");
    assert_eq!(store.get_entry(1).key, "a");
    assert_eq!(store.get_entry(1).value, "2");
}

#[test]
fn get_unknown_key_is_none() {
    let store = StoreOptions::iter_2_opts(vec![pair("region", "a")]);
    assert!(store.get("endpoint").is_none());
}

#[test]
fn validation_totality_on_known_keys() {
    let opts = StoreOptions::new(
        vec![pair("account_name", "acc"), pair("ACCOUNT_KEY", "k"), pair("endpoint", "http://e")],
        ClientOptions::default(),
    );
    let validated = opts.get_azure_options().unwrap();
    assert_eq!(validated.len(), 3);
    assert_eq!(*validated.entry(0), (AzureConfigKey::AccountName, String::from("acc")));
    assert_eq!(*validated.entry(1), (AzureConfigKey::AccountKey, String::from("k")));
    assert_eq!(*validated.entry(2), (AzureConfigKey::Endpoint, String::from("http://e")));
}

#[test]
fn fail_fast_on_unknown_key() {
    let opts = StoreOptions::new(
        vec![pair("account_name", "abc"), pair("bad_key", "x")],
        ClientOptions::default(),
    );
    let err = opts.get_azure_options().unwrap_err();
    let Error::UnknownConfigurationKey { store, key } = err;
    assert_eq!(store, Provider::MicrosoftAzure);
    assert_eq!(key, "bad_key");
}

#[test]
fn transport_config_is_independent() {
    let opts = StoreOptions::new(
        vec![pair("region", "r")],
        ClientOptions { timeout_secs: 10, connect_timeout_secs: 2, allow_http: true },
    );
    let mut copy = opts.get_client_options();
    copy.timeout_secs = 999;
    copy.allow_http = false;
    let again = opts.get_client_options();
    assert_eq!(again.timeout_secs, 10);
    assert_eq!(again.connect_timeout_secs, 2);
    assert!(again.allow_http);
}

#[test]
fn cross_provider_independence() {
    // The same store validates under one schema and fails under another.
    let opts = StoreOptions::new(vec![pair("region", "x")], ClientOptions::default());
    assert!(opts.get_s3_options().is_ok());
    let err = opts.get_gcs_options().unwrap_err();
    assert_eq!(err.provider(), Provider::GoogleCloudStorage);
    assert_eq!(err.key(), "region");
}

#[test]
fn concrete_round_trip() {
    let opts = StoreOptions::new(
        vec![pair("Region", "us-east-1"), pair("Endpoint", "http://x")],
        ClientOptions::default(),
    );
    let validated = opts.get_s3_options().unwrap();
    assert_eq!(validated.len(), 2);
    let mut region: Option<String> = None;
    let mut endpoint: Option<String> = None;
    let mut i = 0;
    while i < validated.len() {
        let (key, value) = validated.entry(i);
        match key {
            AmazonS3ConfigKey::Region => region = Some(value.clone()),
            AmazonS3ConfigKey::Endpoint => endpoint = Some(value.clone()),
            _ => panic!("unexpected key"),
        }
        i += 1;
    }
    assert_eq!(region.as_deref(), Some("us-east-1"));
    assert_eq!(endpoint.as_deref(), Some("http://x"));
}

#[test]
fn empty_store_validates_everywhere() {
    let opts = StoreOptions::new(Vec::new(), ClientOptions::default());
    assert_eq!(opts.get_azure_options().unwrap().len(), 0);
    assert_eq!(opts.get_s3_options().unwrap().len(), 0);
    assert_eq!(opts.get_gcs_options().unwrap().len(), 0);
}

#[test]
fn empty_values_are_allowed() {
    let store = StoreOptions::iter_2_opts(vec![pair("bucket", "")]);
    assert_eq!(store.get("bucket").map(String::as_str), Some(""));
}

#[test]
fn default_store_options_are_empty() {
    let opts = StoreOptions::default();
    assert_eq!(opts.get_client_options(), ClientOptions::default());
    assert_eq!(opts.get_s3_options().unwrap().len(), 0);
}

#[test]
fn from_pairs_uses_default_transport() {
    let opts = StoreOptions::from_pairs(vec![pair("bucket", "b")]);
    assert_eq!(opts.get_client_options(), ClientOptions::default());
    let validated = opts.get_gcs_options().unwrap();
    assert_eq!(*validated.entry(0), (GoogleConfigKey::Bucket, String::from("b")));
}

#[test]
fn clones_are_independent_copies() {
    let original = StoreOptions::new(
        vec![pair("bucket", "b")],
        ClientOptions { timeout_secs: 7, connect_timeout_secs: 1, allow_http: false },
    );
    let copy = original.clone();
    drop(original);
    assert_eq!(copy.get_client_options().timeout_secs, 7);
    let validated = copy.get_s3_options().unwrap();
    assert_eq!(*validated.entry(0), (AmazonS3ConfigKey::Bucket, String::from("b")));
}

#[test]
fn error_on_later_unknown_key_reports_it() {
    // Every key before the unknown one parses; the error names the unknown one.
    let opts = StoreOptions::new(
        vec![pair("access_key_id", "a"), pair("secret_access_key", "s"), pair("Colour", "red")],
        ClientOptions::default(),
    );
    let err = opts.get_s3_options().unwrap_err();
    assert_eq!(err.provider(), Provider::AmazonS3);
    assert_eq!(err.key(), "colour");
}
