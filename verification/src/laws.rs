//! What the operations of the library are for: laws on the results of calls, stated over the
//! arguments, the public fields, and the results of other calls.
//!
//! `call_ensures(f, args, result)` says that a call of `f` with `args` may give `result`. For an
//! argument that is a mutable reference, `old` and `final` are the values before and after the call.
pub mod artifacts;
pub mod blob;
pub mod bootstrap;
pub mod chunk_dict;
pub mod domain;
pub mod extension;
pub mod manager;
pub mod options;
pub mod table;
