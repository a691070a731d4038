//! The commands as jobs.
//!
//! A job alternates work outside the library with decisions. Its state says what has to be done
//! next; the outcome is handed to `advance`, which decides how the job goes on. A reply that
//! does not fit the state leaves the job as it is, and a finished job stays finished.

pub mod account;
pub mod download;
pub mod file_placement;
pub mod installation;
pub mod listing;
pub mod pairing_bytes;
pub mod pairing_command;
pub mod placement;
pub mod remote_pairing;
pub mod selection;
pub mod sidestore;
pub mod sign_in;
