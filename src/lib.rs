//! Analysis core of a C++/Rust bindings generator: qualified names, a
//! table of built-in types, type conversion, typedef resolution, the
//! plain-data (by-value) classification of structs and the allocation of
//! unique names in the flat bridge namespace.

pub mod text;
pub mod known_types;
pub mod error;
pub mod names;
pub mod tracker;
pub mod api;
pub mod config;
pub mod type_converter;
pub mod tdef;
pub mod pod;
pub mod gen_cmd;
pub mod laws;
pub mod pipeline;
