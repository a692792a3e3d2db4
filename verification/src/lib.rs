//! Verified parsing and decision logic for driving MakeMKV's console
//! application (`makemkvcon`) and for ripping optical discs.

pub mod text;
pub mod apdefs;
pub mod api;
pub mod mkvcon;
pub mod mkv;
pub mod pattern;
pub mod ripit;
pub mod cli;
