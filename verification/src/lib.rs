//! Verified core of an AWS resource explorer: it turns what AWS reports about
//! resources into JSON documents.
pub mod json;
pub mod timestamp;
pub mod text;
pub mod order;
pub mod services;
