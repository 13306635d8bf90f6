pub mod remote_settings;
pub mod rs_client;
pub mod suggest;
