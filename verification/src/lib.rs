//! Safe, verified core of a wrapper around the Telajax runtime of Kalray's MPPA.
//!
//! The runtime itself is a C library; every call into it returns a status code
//! (0 on success) and, for some calls, a handle. This crate holds what the
//! wrapper decides around those calls: which error a status stands for, whether
//! a copy between host and device fits the device buffer, which arguments a
//! kernel may be given, and when a stored GPU description may be used.
pub mod buffer;
pub mod characterize;
pub mod device;
pub mod error;

pub use buffer::Buffer;
pub use characterize::{check_gpu_desc, create_table_header, DescError};
pub use device::{Device, Direction, Event, Kernel, Mem, Transfer, Wrapper};
pub use error::{ClError, RWError};
