//! A verified protocol layer over a platform-native certificate store.
//!
//! The library owns the logic of the store abstraction: the exact parameter
//! words of each native call, the lifecycle of the store handle, the
//! cursor-driven search protocol with its duplicate-before-next-probe
//! discipline, and the translation of native status codes into a typed
//! error. The native calls themselves are foreign, unsafe functions; the
//! surrounding application performs them and feeds their results back in.

pub mod cert;
pub mod error;
pub mod find;
pub mod store;
pub mod wide;
