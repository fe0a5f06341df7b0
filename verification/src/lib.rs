//! Sans-I/O core of an ACME client: it decides which request goes out next
//! and what each response means, and leaves the network to its caller.

pub mod base64url;
pub mod client;
pub mod decode;
pub mod encode;
pub mod error;
pub mod http_model;
pub mod json;
pub mod laws;
pub mod protocol;
pub mod text;
pub mod url;
pub mod views;
