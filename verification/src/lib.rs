//! Editor-facing translation layer of the RustScript toolchain.

pub mod assoc;
pub mod ast;
pub mod builtin_hover;
pub mod completions;
pub mod error;
pub mod generator;
pub mod lower;
pub mod name_map;
pub mod position_map;
pub mod ra_proxy;
pub mod rust_ir;
pub mod rustdoc;
pub mod rustdoc_translator;
pub mod stdlib_deps;
pub mod text;
pub mod use_collector;

use vstd::prelude::*;

verus! {

} // verus!
