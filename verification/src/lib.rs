//! Request planning for the mochify image and PDF processing service:
//! parameter validation, query building, prompt expansion, output naming
//! and the reporting decisions around a batch of uploads.

pub mod text;
pub mod error;
pub mod pdf;
pub mod query;
pub mod params;
pub mod prompt;
pub mod naming;
pub mod modes;
pub mod cli;
pub mod plan;
pub mod meta;
pub mod batch;
pub mod tools;
pub mod auth;
pub mod laws;
