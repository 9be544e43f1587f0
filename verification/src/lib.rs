//! PostgreSQL's `json` and `jsonb` as Rust values.
//!
//! [`Json`], [`JsonB`] and [`JsonString`] are made from datums and turned into datums.
//! What only the backend can do (detoasting, printing, allocating, freeing) a
//! conversion asks for as a [`backend::Request`]; what is decided or computed in
//! between is verified here.
pub mod backend;
pub mod bench;
pub mod codec;
pub mod json;
pub mod json_b;
pub mod json_string;
pub mod laws;
pub mod make;
pub mod outcomes;
pub mod payload;
pub mod tree;
pub mod varlena;

pub use json::Json;
pub use json_b::JsonB;
pub use json_string::JsonString;
