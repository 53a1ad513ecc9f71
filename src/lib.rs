//! Coordination layer for quantum circuit simulation: circuit intermediate
//! representation, permutation kernels over amplitude buffers, the hybrid
//! scheduler, the job lifecycle, and the measurement-streaming fabric.
//!
//! Real-valued quantities (rotation angles, amplitudes) never enter this
//! crate as numbers: a rotation angle is carried as its IEEE-754 bit
//! pattern, and amplitude buffers are handled generically.

mod platform;

pub mod text;
pub mod error;
pub mod handle;
pub mod capability;
pub mod message;
pub mod task;
pub mod streaming;
pub mod server;
pub mod measurement;
pub mod aggregator;
pub mod job;
pub mod transport;
pub mod circuit;
pub mod ansatz;
pub mod kernels;
pub mod execution;
pub mod cache;
pub mod channel;
pub mod presentation;
