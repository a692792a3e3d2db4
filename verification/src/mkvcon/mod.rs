//! Interface to MakeMKV's console application (`makemkvcon`): running it
//! is left to the caller; this module interprets what it prints.

pub mod attribute_map;
pub mod parser;
pub mod streams;
pub mod source;
pub mod scan;
