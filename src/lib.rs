//! Knowledge records and the response shapes derived from them.
pub mod json;
pub mod knowledge;
pub mod response;
pub mod laws;
