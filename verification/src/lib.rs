//! A safe layer over a pointer-based code-generation backend.
//!
//! The layer never touches the backend itself. Every operation marshals its
//! arguments into a [`raw::RawCall`], which the embedding program carries out;
//! the address that comes back is wrapped into an [`handle::LLHandle`] by the
//! [`raw::Request`] that produced the call. What is verified here is the part
//! that decides: reference counting of shared handles, the tag discipline of
//! values, the version that every call goes to, and the shape of every
//! marshaled call.
//!
//! - [`handle`]: ownership blocks, their reference counts, and the laws of
//!   release.
//! - [`tags`]: capability tags, backend versions and kinds of backend objects
//!   as types.
//! - [`predicate`]: comparison predicates and their backend codes.
//! - [`cname`]: names in marshaled form.
//! - [`inst`]: the table of instructions.
//! - [`raw`]: marshaled calls and requests.
//! - [`caps`]: the capability interfaces with their contracts.
//! - [`llvm`]: the handle types of every backend version and their
//!   capabilities.
//! - [`versions`]: the table of supported versions and the texts made from it.
//! - [`manifest`], [`markers`]: build manifests and documents whose marked
//!   parts are made anew from the table of versions.
//! - [`lines`]: texts as lines.
//! - [`text`]: the text primitives underneath, taken on trust.

mod private;
pub mod tags;
pub mod handle;
pub mod predicate;
pub mod cname;
pub mod inst;
pub mod raw;
pub mod caps;
pub mod llvm;
pub mod versions;
pub mod text;
pub mod lines;
pub mod manifest;
pub mod markers;
