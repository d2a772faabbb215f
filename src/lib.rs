//! Run resolution and CI job-log rendering for a GitLab command-line client.
//!
//! - [`resolve`] decides which project, ref, pipeline and job a command acts on, from
//!   what the user gave, what the local checkout suggests and what the remote lookups
//!   returned.
//! - [`section`] reads the section markers embedded in job logs.
//! - [`render`] turns a job log into styled output according to a [`render::LogFilter`];
//!   [`log_laws`] states what that rendering guarantees.
//! - [`status`] maps run statuses to display styles.
pub mod args;
pub mod config;
pub mod extract;
pub mod log_laws;
pub mod messages;
pub mod render;
pub mod resolve;
pub mod section;
pub mod status;
pub mod text;
pub mod tokens;
pub mod types;
