//! A verified bridge between application code and a native packet-processing
//! driver: text to and from NUL-terminated byte strings, the driver's raw
//! returns (nullable pointers, signed status codes) to results, and fully
//! initialised instances of the driver's fixed-layout value structures.

pub mod abi;
pub mod result_bridge;
pub mod text_bridge;
