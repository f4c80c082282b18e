//! A small command-line HTTP client: the command model (verb, URL and
//! `key=value` body pairs), the JSON body built from those pairs, and the
//! rendering of a received response.

pub mod error;
pub mod kv;
pub mod url;
pub mod body;
pub mod intent;
pub mod render;
pub mod highlight;
pub mod config;
