//! Lifecycle core of a supervised network service.
//!
//! The library is the decision-making half of a service that runs under an
//! external, synchronous control plane: the lifecycle state machine
//! (`Stopped` / `Running`), the control-bridge reply discipline, the
//! single-fire shutdown handshake, and the restart policy of the managed
//! server task. The asynchronous runtime, the network server and the OS
//! service plumbing live outside the library and only carry out the actions
//! these functions decide on.

pub mod control;
pub mod greeter;
pub mod lifecycle;
pub mod shutdown;
pub mod supervisor;
pub mod task;
