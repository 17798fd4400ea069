//! Planning logic of the `#[ts]` attribute: TypeScript type mapping,
//! attribute-argument parsing and the expansion plans for structs, enums,
//! function type aliases and `call` impl blocks.
pub mod text;
pub mod syntax;
pub mod arrays;
pub mod ts_type;
pub mod diag;
pub mod conversion;
pub mod signature;
pub mod args;
pub mod interface;
pub mod dispatch;
pub mod laws;
