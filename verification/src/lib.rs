//! Backs up local files to an S3-compatible object store, uploading only
//! files whose content differs from what the store already holds.
//!
//! The two pieces with real engineering content are verified here: the
//! content-fingerprinting engine that reproduces the multipart ETag
//! format of S3-compatible services ([`etag`], over [`digest`] and
//! [`textfmt`]), and the synchronization decisions that match files to
//! upload rules, read remote state and decide skip-versus-upload
//! ([`rules`], [`remote`], [`sync`]). Directory listing, the network
//! itself and the terminal around them are ordinary unverified callers
//! of these functions.

pub mod config;
pub mod digest;
pub mod error;
pub mod etag;
pub mod options;
pub mod remote;
pub mod rules;
pub mod sync;
pub mod textfmt;
