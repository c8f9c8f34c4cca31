//! Consolidation of vulnerability records fed from several sources into one
//! record per identifier, with the query texts that read them back.
pub mod text;
pub mod severity;
pub mod record;
pub mod laws;
pub mod codec;
pub mod ingest;
pub mod filter;
pub mod digest;
pub mod export;
pub mod errors;
