//! A glossary trainer: term records of the form `keyword -$- meaning`, and
//! multiple-choice questions drawn from a topic's records.

pub mod text;
pub mod error;
pub mod record;
pub mod sampler;
pub mod question;
pub mod session;
pub mod config;
