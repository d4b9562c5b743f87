//! Relays the body of a download into the body of an upload as it arrives, framed as one
//! `multipart/form-data` file part.
//!
//! The download side turns response headers and body chunks into [`protocol::Message`]s
//! ([`download::DownloadSession`]); the upload side reads them in order, resolves the
//! upload's settings once the headers have ended, and hands out the request body piece by
//! piece ([`upload::UploadSession`]). [`manager::Manager`] holds the configuration and
//! hands out both sides once.
pub mod download;
pub mod file_name;
pub mod header;
pub mod manager;
pub mod multipart;
pub mod options;
pub mod protocol;
pub mod upload;
