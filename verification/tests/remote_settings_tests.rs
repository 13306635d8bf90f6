use remote_settings::rs_client::{decimal_string, ClientError};
use remote_settings::remote_settings::{RemoteSettings, RemoteSettingsConfig, RemoteSettingsError};

#[test]
fn new_without_config_uses_default() {
    let rs = RemoteSettings::new(None);
    assert_eq!(rs.config.server_url, "");
    assert_eq!(rs.config.collection_name, "");
    assert_eq!(rs.config.bucket_name, Some(String::from("")));
}

#[test]
fn new_with_config_keeps_it() {
    let config = RemoteSettingsConfig {
        server_url: String::from("https://example.com"),
        collection_name: String::from("the-collection"),
        bucket_name: Some(String::from("the-bucket")),
    };
    let rs = RemoteSettings::new(Some(config));
    assert_eq!(rs.config.server_url, "https://example.com");
    assert_eq!(rs.config.collection_name, "the-collection");
    assert_eq!(rs.config.bucket_name, Some(String::from("the-bucket")));
}

#[test]
fn new_with_config_without_bucket() {
    let config = RemoteSettingsConfig {
        server_url: String::from("https://example.com"),
        collection_name: String::from("c"),
        bucket_name: None,
    };
    let rs = RemoteSettings::new(Some(config));
    assert_eq!(rs.config.bucket_name, None);
}

#[test]
fn network_failure_message() {
    assert_eq!(RemoteSettingsError::NetworkFailure.message(), "Network failure");
}

#[test]
fn client_error_messages() {
    assert_eq!(ClientError::BackoffError(60).message(), "Server asked the client to back off (60 seconds remaining)");
    assert_eq!(ClientError::RequestError("boom".to_string()).message(), "Error sending request: boom");
    assert_eq!(ClientError::ResponseError("bad".to_string()).message(), "Error in network response: bad");
    let e = url::Url::parse("not a url").unwrap_err();
    assert_eq!(ClientError::UrlParsingError(e).message(), format!("Error parsing URL: {}", e));
    assert_eq!(decimal_string(0), "0");
    assert_eq!(decimal_string(1234567890), "1234567890");
    assert_eq!(decimal_string(u64::MAX), u64::MAX.to_string());
}
