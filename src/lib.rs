//! Download-and-verify engine of a game launcher: the jobs that an install
//! needs, the decision to skip or fetch each file, the bounded scheduling of
//! the fetches and the shared progress that observers read.

pub mod progress;
pub mod hashing;
pub mod text;
pub mod job;
pub mod integrity;
pub mod scheduler;
pub mod batch;
pub mod fetch;
pub mod version_json;
pub mod config;
pub mod manifest;
pub mod version;
pub mod install;
pub mod tabs;
pub mod tasks;
pub mod users;
pub mod launch;
