//! Retrieval-augmented generation without the I/O: request shaping, reply
//! interpretation, sequencing, context assembly and prompt construction,
//! each with a contract that Verus proves.

pub mod constants;
pub mod context;
pub mod entry;
pub mod env_load;
pub mod ingest;
pub mod number;
pub mod pinecone_client;
pub mod query_db;
pub mod text;
pub mod types;
