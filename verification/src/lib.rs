//! The decisions of the `iloader` command line tool: which device, which file, which
//! certificates, which words, and what comes next.

pub mod text;
pub mod numbers;
pub mod error;
pub mod requests;
pub mod property_list;
pub mod version;
pub mod documents;
pub mod device;
pub mod ipa;
pub mod pairing_apps;
pub mod auth;
pub mod reports;
pub mod jobs;
