//! PostgreSQL front door for a Turso database.

pub mod command;
pub mod copy;
pub mod error;
pub mod hex;
pub mod laws;
pub mod metadata;
pub mod number;
pub mod parameter;
pub mod pgtype;
pub mod pgvector;
pub mod prepare;
pub mod row;
pub mod schema;
pub mod server;
pub mod statement;
pub mod text;
pub mod value;
pub mod vector;

pub use metadata::PgParameterMetadata;
pub use pgvector::VECTOR_TYPE_OID;
pub use statement::{split_statements, PgQueryRunner};
