//! Object and execution runtime of a small dynamic-language interpreter.
//!
//! Every value lives in the object store of a [`pyobject::PyContext`] and is
//! referred to by its handle, the index at which it was allocated. Attribute
//! resolution, scope chains, class construction, the exception hierarchy and
//! the builtin functions are all stated over the sequence of stored objects.

pub mod namespace;
pub mod pyobject;
pub mod objtype;
pub mod vm;
pub mod render;
pub mod builtins;
