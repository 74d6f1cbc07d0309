pub mod api_call;
pub mod client;
pub mod token_info;
