//! Type oracle and FFI-ABI mapping engine for a PHP binding generator.
//!
//! The engine resolves, for each interface-level type, the surface names,
//! the ABI-level spellings used at the native boundary, and the names of the
//! paired conversion helpers. Every lookup is a pure function of the type
//! and the immutable per-run configuration.

use vstd::prelude::*;

pub mod context;
pub mod decimal;
pub mod ffi;
pub mod filters;
pub mod naming;
pub mod oracle;
pub mod types;

verus! {

/// The generated source artifact for one interface.
pub struct Bindings {
    pub library: String,
}

/// The per-run switches of the binding generator driver.
pub struct BindingGeneratorPHP {
    pub try_format_code: bool,
}

} // verus!
