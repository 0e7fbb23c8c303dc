//! Schema-binding core for a client-side-validated contract platform.
//!
//! A `Codex` is an immutable, content-addressed ruleset mapping 8-bit call
//! selectors to entry points inside a script library.  An `Api` layers a
//! named, human-readable state interface over one Codex.  A `Schema` composes
//! one Codex, one or more compatible APIs, the script library and a handle to
//! the semantic type system into a single deterministic, persistable bundle.
//!
//! Everything here is pure: builders either return a fully valid value or a
//! specific error, and the canonical encoding (and every content id derived
//! from it) is a function of the encoded value alone.

pub mod encode;
pub mod uint256;
pub mod codex;
pub mod api;
pub mod schema;
pub mod decode;
pub mod integrity;
