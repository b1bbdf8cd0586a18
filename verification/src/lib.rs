//! A deterministic mock of Google's Data Portability endpoints, for driving a
//! consuming backend's OAuth and data-archival workflows in tests.
//!
//! The library holds the verified core: the layered configuration model, the
//! closed resource and access-type vocabularies with their string conversions,
//! and the five canned request/response rules that the mock server serves.
//! Binding the listener and registering the rules against the HTTP engine is
//! plain I/O and lives outside the library.

pub mod archive;
pub mod mocks;
pub mod resources;
pub mod settings;
pub mod text;
