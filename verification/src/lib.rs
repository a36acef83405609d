//! An ownership-bridging layer for objects that live inside a foreign,
//! intrusively reference-counted native library: exclusive owned handles with
//! a teardown owed exactly once, shared handles whose duplication and discard
//! delegate to the foreign counter, and the small capability contracts the
//! two primitives are built on.

pub mod capability;
pub mod doubles;
pub mod handle;
pub mod heap;
pub mod laws;
pub mod pointer;
pub mod rc_handle;
