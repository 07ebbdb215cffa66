//! Schema ingestion and name derivation for a GraphQL type-layer generator.

pub mod config;
pub mod dmmf;
pub mod generator;
pub mod json;
pub mod names;
pub mod parser;
pub mod parser_laws;
pub mod path_laws;
pub mod protocol;
pub mod scanner;
pub mod schema;
pub mod text;
