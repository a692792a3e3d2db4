//! Ripping optical discs with MakeMKV: drives and their discs, message
//! severities, and the choices made while extracting a disc.

pub mod optical_disc;
pub mod optical_drive;
pub mod drives;
pub mod severities;
pub mod jobs;
pub mod volume;
pub mod paths;
