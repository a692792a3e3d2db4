//! The MakeMKV library: the parsed output of `makemkvcon`, the content of a
//! disc, and the decisions taken while `makemkvcon` runs.

pub mod streams;
pub mod disc_content;
pub mod stream_cache;
pub mod parser;
pub mod runner;
pub mod source;
pub mod config;
