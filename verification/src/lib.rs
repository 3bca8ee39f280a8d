pub mod encoding;
pub mod json;
pub mod methods;
pub mod request;
pub mod types;
pub mod webhook;
