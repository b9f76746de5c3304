//! The operations a host invokes on the shared state.

pub mod tracking;
pub mod ss_worker;
pub mod screenshot;
