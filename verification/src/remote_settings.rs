use vstd::prelude::*;
use vstd::string::*;

verus! {

/// The errors that the Remote Settings client reports.
#[derive(Debug, Clone, Copy, PartialEq, Eq, Structural)]
pub enum RemoteSettingsError {
    NetworkFailure,
}

impl RemoteSettingsError {
    /// The text of the error, as it is shown to users.
    pub fn message(&self) -> (m: String)
        ensures
            m@ == "Network failure"@,
    {
        match self {
            RemoteSettingsError::NetworkFailure => String::from_str("Network failure"),
        }
    }
}

/// Where a Remote Settings collection lives.
pub struct RemoteSettingsConfig {
    pub server_url: String,
    pub collection_name: String,
    pub bucket_name: Option<String>,
}

/// The abstract value of a configuration: its strings as character sequences.
pub struct RemoteSettingsConfigView {
    pub server_url: Seq<char>,
    pub collection_name: Seq<char>,
    pub bucket_name: Option<Seq<char>>,
}

impl View for RemoteSettingsConfig {
    type V = RemoteSettingsConfigView;

    open spec fn view(&self) -> RemoteSettingsConfigView {
        RemoteSettingsConfigView {
            server_url: self.server_url@,
            collection_name: self.collection_name@,
            bucket_name: match self.bucket_name {
                Some(b) => Some(b@),
                None => None,
            },
        }
    }
}

/// The configuration used when none is given: every name empty, and an
/// empty bucket name given explicitly.
pub open spec fn default_config() -> RemoteSettingsConfigView {
    RemoteSettingsConfigView {
        server_url: Seq::empty(),
        collection_name: Seq::empty(),
        bucket_name: Some(Seq::empty()),
    }
}

impl RemoteSettingsConfig {
    /// Builds the configuration described by `default_config`.
    pub fn default_config() -> (c: RemoteSettingsConfig)
        ensures
            c@ == default_config(),
    {
        let c = RemoteSettingsConfig {
            server_url: String::new(),
            collection_name: String::new(),
            bucket_name: Some(String::new()),
        };
        assert(c@.bucket_name == default_config().bucket_name);
        c
    }
}

/// A client for one Remote Settings collection.
pub struct RemoteSettings {
    pub config: RemoteSettingsConfig,
}

impl RemoteSettings {
    /// Creates a client for the given configuration, or for the default
    /// configuration when none is given.
    pub fn new(config: Option<RemoteSettingsConfig>) -> (rs: Self)
        ensures
            rs.config@ == (match config {
                Some(c) => c@,
                None => default_config(),
            }),
    {
        let config = match config {
            Some(c) => c,
            None => RemoteSettingsConfig::default_config(),
        };
        RemoteSettings { config }
    }
}

} // verus!
