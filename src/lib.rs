//! Provider descriptors for language-model HTTP APIs and the preparation of
//! requests to them: endpoint URLs, headers, authentication and retry policy.
pub mod text;
pub mod keyed_map;
pub mod provider;
pub mod registry;
pub mod laws;
