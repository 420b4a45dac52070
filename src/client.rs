pub mod client;
pub mod net;
pub mod request;
