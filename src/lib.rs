//! Safe handling of a GPU driver's devices, contexts and the resources made
//! under them: which context is current on a thread, when handles are valid,
//! and what each driver status means to a caller.
pub mod context;
pub mod device;
pub mod error;
pub mod memory;
pub mod module;
pub mod stream;
