pub mod http;
pub mod kafka;
