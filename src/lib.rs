//! Credential verification for a collaboration server: access-token hashing in
//! three coexisting stored formats, verification with transparent migration to
//! the current format, impersonation, and the decisions taken on an
//! authorization header. Also the declarative content of some settings pages.

pub mod access_token;
pub mod hash_codec;
pub mod header;
pub mod settings_pages;
pub mod text;
