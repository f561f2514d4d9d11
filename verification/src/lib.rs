//! Reference resolution and a content-addressed cache for component
//! artifacts.
//!
//! A reference (a digest, a local path, an HTTP URL, a registry reference
//! or an entry of a lockfile) is resolved to an entry of a cache that is
//! keyed by the SHA-256 digest of the artifact. This crate holds the rules:
//! how a reference is classified, what is looked up, fetched and written
//! for it, and when offline mode or the tag policy forbids the work. It
//! does no I/O. Each rule is a function from what is known so far to the
//! next step; the caller carries the step out and comes back with what it
//! found.
//!
//! - [`digest`]: digests and their normal form.
//! - [`reference`]: what kind of thing a reference names.
//! - [`cache`]: the layout of the cache, writes, listing and collection.
//! - [`oci`]: registry references, layer selection, digest verification.
//! - [`dist`]: the resolver over all kinds of references.
//! - [`lockfile`]: the lockfile format and the pull of its entries.
//! - [`error`]: errors, their messages and exit codes.
//! - [`json`]: JSON documents as trees of plain values.
//! - [`cli`]: the command line as data, and the default cache root.
//! - [`dev`]: the layout of a local development tree.
//! - [`config`], [`wit_client`]: a distributor behind its component
//!   interface.
//! - [`text`]: helpers on strings.

pub mod cache;
pub mod cli;
pub mod config;
pub mod dev;
pub mod digest;
pub mod dist;
pub mod error;
pub mod json;
pub mod lockfile;
pub mod oci;
pub mod reference;
pub mod text;
pub mod wit_client;
