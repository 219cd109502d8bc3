//! Safe, verified state layer over a native neural-network inference
//! runtime that exposes opaque, reference-counted handles (engine, context,
//! model, tensor) through a flat, error-code-returning interface.
//!
//! The native runtime is reached only through raw FFI, which cannot be
//! verified; every function here therefore works on plain values: a native
//! handle appears as a nonzero `usize` token (zero standing for the null
//! pointer), a native status as an `i32` code, and native text as the raw
//! bytes it pointed at. The caller performs the native calls and hands the
//! results in; this crate makes every ownership, lifetime, caching and
//! type-dispatch decision, and those decisions are what is verified.

use crate::error::Error;
use vstd::prelude::*;
use vstd::string::StringExecFns;

pub mod context;
pub mod data;
pub mod engine;
pub mod error;
pub mod model;
pub mod tensor;
pub mod text;

verus! {

/// How a tensor's integer values map to real values: not quantized,
/// one affine mapping for the whole tensor, or one per channel.
pub enum QuantizationType {
    TypeNone,
    TypeAffinePerTensor,
    TypeAffinePerChannel,
}

pub fn init() {
}

/// Decodes the runtime's version string; `fetched` is the raw text the
/// native accessor returned, `None` for null. A missing version or an
/// invalid encoding is an error, never a panic.
pub fn version(fetched: Option<Vec<u8>>) -> (r: Result<String, Error>)
    ensures
        crate::model::required_text_ok(fetched, r),
{
    match fetched {
        None => Err(Error::WrapperError(String::from_str("nn_version returned null"))),
        Some(b) => crate::text::decode_text(b),
    }
}

} // verus!
