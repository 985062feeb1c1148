//! Synchronizes a curated reading list from a structured-content database
//! into page files of a static-site repository, and publishes the change
//! as one commit pushed to the repository's main branch.
//!
//! The crate holds the pipeline's logic: configuration resolution, the
//! shape of the fetch request, the record-to-item transformation, page
//! rendering, and the publishing protocol as a step machine. The I/O that
//! carries it out (HTTP, the filesystem, git) lives outside the crate and
//! hands plain values in and out.

pub mod config;
pub mod json;
pub mod publish;
pub mod render;
pub mod transform;
