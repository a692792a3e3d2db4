//! Parsers for the records of `makemkvcon --robot` output.
//!
//! Each output line has the form `<ID>:<data>`; the functions here parse
//! the `<data>` part of one record type.

pub mod line_parser;
pub mod cinfo;
pub mod csv_reader;
pub mod info;
pub mod progress;
pub mod sinfo;
pub mod tcount;
pub mod tinfo;
pub mod drive;
pub mod msg;
pub mod record;
