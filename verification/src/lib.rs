//! Interactive selection of heterogeneous-compute platforms and devices.
//!
//! The library holds the decision logic of a small command-line utility:
//! filtering enumerated platforms by a case-insensitive pattern, annotating
//! devices with their memory size, flattening typed context properties into
//! the native property array, and the selection flow itself. All native
//! runtime calls and terminal prompting stay outside the library.

pub mod context;
pub mod demo;
pub mod flow;
pub mod pattern;
pub mod platform_and_device;
pub mod text;
