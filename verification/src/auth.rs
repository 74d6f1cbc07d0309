pub mod access_token;
pub mod client_credentials;
pub mod owned;
pub mod poly;
pub mod provider;
pub mod stat;
