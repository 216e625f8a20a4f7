//! Data of the panel pages.

pub mod settings;
pub mod sitekey;
