//! Ingestion of open issues from the repositories of a project: resolving a
//! repository's owner and name from its URL, keeping the plain issues of a
//! fetched page, building the batch statement that stores them, and the
//! per-request coordinator that sequences these steps.
pub mod batch;
pub mod import;
pub mod issue;
pub mod project;
pub mod resolve;
