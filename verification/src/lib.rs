//! Ownership-aware wrappers for foreign resources.
//!
//! The two central types are [`com::ComPtr`], an owning handle to a
//! reference-counted foreign interface, and [`vsb::VariableSizedBox`], a
//! single-owner buffer for foreign records that carry a fixed header and a
//! variable-length tail.

pub mod com;
pub mod console;
pub mod pod;
pub mod reparse;
pub mod sleep;
pub mod vsb;
