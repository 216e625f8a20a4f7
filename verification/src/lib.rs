//! Core logic of the mCaptcha server: route tables, proof-of-work request
//! handling, database row conversions and the small decision machines that
//! drive the database layer.

pub mod db;
pub mod errors;
pub mod max_nonce;
pub mod models;
pub mod pages;
pub mod pow;
pub mod routes;
pub mod system;

pub use errors::{DBError, QueryFailure};
pub use models::MarkReadReq;
pub use pow::{ApiWork, ValidationToken, Work};
pub use routes::Settings;
