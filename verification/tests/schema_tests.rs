use store_options::aws::AmazonS3ConfigKey;
use store_options::azure::AzureConfigKey;
use store_options::gcp::GoogleConfigKey;
use store_options::Error;
use store_options::Provider;

#[test]
fn azure_parse_is_case_insensitive() {
    assert_eq!(AzureConfigKey::from_str("account_name").unwrap(), AzureConfigKey::AccountName);
    assert_eq!(AzureConfigKey::from_str("ACCOUNT_NAME").unwrap(), AzureConfigKey::AccountName);
    assert_eq!(AzureConfigKey::from_str("Account_Key").unwrap(), AzureConfigKey::AccountKey);
    assert_eq!(
        AzureConfigKey::from_str("Container_Name").unwrap(),
        AzureConfigKey::ContainerName
    );
    assert_eq!(AzureConfigKey::from_str("endPoint").unwrap(), AzureConfigKey::Endpoint);
}

#[test]
fn azure_parse_rejects_unknown() {
    let Error::UnknownConfigurationKey { store, key } =
        AzureConfigKey::from_str("Account").unwrap_err();
    assert_eq!(store, Provider::MicrosoftAzure);
    assert_eq!(key, "account");
}

#[test]
fn s3_parse_is_case_insensitive() {
    assert_eq!(AmazonS3ConfigKey::from_str("REGION").unwrap(), AmazonS3ConfigKey::Region);
    assert_eq!(
        AmazonS3ConfigKey::from_str("access_key_id").unwrap(),
        AmazonS3ConfigKey::AccessKeyId
    );
    assert_eq!(
        AmazonS3ConfigKey::from_str("Secret_Access_Key").unwrap(),
        AmazonS3ConfigKey::SecretAccessKey
    );
    assert_eq!(AmazonS3ConfigKey::from_str("Bucket").unwrap(), AmazonS3ConfigKey::Bucket);
    assert_eq!(AmazonS3ConfigKey::from_str("endpoint").unwrap(), AmazonS3ConfigKey::Endpoint);
}

#[test]
fn s3_parse_rejects_prefixes_and_unknown() {
    // Exact match only: a prefix of a canonical name is not recognized.
    let err = AmazonS3ConfigKey::from_str("regio").unwrap_err();
    assert_eq!(err.provider(), Provider::AmazonS3);
    assert_eq!(err.key(), "regio");
    assert!(AmazonS3ConfigKey::from_str("region ").is_err());
    assert!(AmazonS3ConfigKey::from_str("").is_err());
}

#[test]
fn gcs_parse_is_case_insensitive() {
    assert_eq!(
        GoogleConfigKey::from_str("Service_Account").unwrap(),
        GoogleConfigKey::ServiceAccount
    );
    assert_eq!(
        GoogleConfigKey::from_str("SERVICE_ACCOUNT_KEY").unwrap(),
        GoogleConfigKey::ServiceAccountKey
    );
    assert_eq!(GoogleConfigKey::from_str("bucket").unwrap(), GoogleConfigKey::Bucket);
}

#[test]
fn gcs_parse_rejects_unknown() {
    let err = GoogleConfigKey::from_str("account_name").unwrap_err();
    assert_eq!(err.provider(), Provider::GoogleCloudStorage);
    assert_eq!(err.key(), "account_name");
}

#[test]
fn non_ascii_keys_are_kept_as_given() {
    // ASCII case folding leaves non-ASCII characters unchanged.
    let err = AzureConfigKey::from_str("Schlüssel").unwrap_err();
    assert_eq!(err.key(), "schlüssel");
}
