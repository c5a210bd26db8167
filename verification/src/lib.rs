//! Client-side capability discovery and typed control layer for a
//! peripheral-management daemon reachable over a message bus.
//!
//! The daemon exposes one remote object per connected peripheral; each object
//! implements a variable subset of a fixed set of named interfaces.  This
//! crate parses the introspection document such an object reports, derives a
//! normalized feature / LED capability model from it, and provides the pure
//! decoding and encoding rules behind every typed operation.  The transport
//! itself (the bus connection and the asynchronous calls) lives outside this
//! crate; everything here works on plain values and is verified.

pub mod bytestr;
pub mod capability;
pub mod constants;
pub mod decode;
pub mod device;
pub mod doctype;
pub mod error;
pub mod icon;
pub mod introspect;
pub mod json;
pub mod tokenizer;
pub mod types;
