//! Generator core for a Nix vim-plugin package manifest.
//!
//! The library turns an ordered list of plugin entries (owner/repository
//! pairs, each with an optional pinned revision) into a single Nix document.
//! Every entry needs two remote lookups — the latest revision of its
//! repository and a content hash of the derived tarball URL — before its
//! stanza can be rendered.  The remote calls themselves are left to the
//! surrounding program; this crate holds the verified logic around them:
//! parsing the entry sources, resolving pinned and unpinned revisions,
//! rendering stanzas, the batch state machine that bounds how many entries
//! may hold a lookup slot at once and isolates per-entry failures, and the
//! assembly of the final document.

pub mod assemble;
pub mod batch;
pub mod config;
pub mod date;
pub mod error;
pub mod manifest;
pub mod pipeline;
pub mod render;
pub mod resolve;
pub mod text;
