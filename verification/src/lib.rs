//! Custom GPU draw and compute descriptors, their validation, and the
//! backend-independent bookkeeping behind a custom draw registry.
pub mod types;
pub mod error;
pub mod texture;
pub mod validate;
pub mod draw;
pub mod sizing;
pub mod resources;
pub mod registry;
pub mod keys;
pub mod blend;
pub mod cache;
pub mod url;
pub mod uniform;
pub mod shader;
pub mod locations;
pub mod naga_module;
pub mod rewrite;
pub mod pipeline;
