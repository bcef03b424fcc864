//! Class registration and ownership capabilities for a foreign object runtime.
//!
//! A host-defined script class attaches per-instance payload to objects owned
//! by a foreign runtime. References to such objects are delivered with a
//! compile-time access-capability tag describing who else may concurrently
//! hold the same object. A sealed conversion contract narrows each delivered
//! reference into exactly the argument shapes a handler is allowed to declare,
//! with no runtime check: the capability discipline is enforced by types alone.

mod sealed;

pub mod class;
pub mod instance;
pub mod object;
pub mod ownership;
pub mod registry;
pub mod sample;
