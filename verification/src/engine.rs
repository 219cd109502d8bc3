//! Engine: wrapper for a loaded inference backend instance, the root of
//! the handle graph. An engine either owns its native handle (created
//! here, released by its owner exactly once) or merely borrows one whose
//! lifetime a parent controls.

use crate::error::{native_error, Error};
use crate::text::{decode_text, has_nul_byte};
use vstd::prelude::*;
use vstd::string::StringExecFns;
use vstd::string::StringSliceAdditionalSpecFns;
use vstd::utf8::{decode_utf8, valid_utf8};

verus! {

/// Handle to a loaded backend. `owned` says whether the native handle must
/// be released when this wrapper is retired; a borrowed engine (obtained
/// from a context) must never release it. The handle is the native
/// pointer's address, nonzero for a valid engine.
pub struct Engine {
    pub owned: bool,
    pub handle: usize,
}

impl Engine {
    /// A valid engine wraps a non-null native handle.
    pub open spec fn wf(&self) -> bool {
        self.handle != 0
    }

    /// Builds the engine for a freshly allocated backend instance.
    ///
    /// `init_handle` is what native allocation returned (zero for null),
    /// `path` is the backend plugin path the caller asked for, and
    /// `load_code` / `load_description` are the native load step's status
    /// and its description. Allocation failure and a path that cannot be
    /// represented in the native string encoding are wrapper errors; a
    /// failing load step is a native error, and the caller must still
    /// release the allocated handle rather than leak it (the returned
    /// error does not carry it).
    pub fn new(init_handle: usize, path: &str, load_code: i32, load_description: Option<String>)
        -> (r: Result<Engine, Error>)
        ensures
            match r {
                Ok(e) => init_handle != 0 && !has_nul_byte(path.spec_bytes()) && load_code == 0
                    && e == (Engine { owned: true, handle: init_handle }),
                Err(e) => if init_handle == 0 {
                    &&& e matches Error::WrapperError(m)
                    &&& m@ == "nn_engine_init memory allocated failed"@
                } else if has_nul_byte(path.spec_bytes()) {
                    &&& e matches Error::WrapperError(m)
                    &&& m@ == "path contains a nul byte"@
                } else {
                    load_code != 0 && e == native_error(load_description)
                },
            },
    {
        if init_handle == 0 {
            return Err(
                Error::WrapperError(String::from_str("nn_engine_init memory allocated failed")),
            );
        }
        if crate::text::contains_nul_byte(path.as_bytes()) {
            return Err(Error::WrapperError(String::from_str("path contains a nul byte")));
        }
        if load_code != 0 {
            return Err(Error::from_native(load_description));
        }
        Ok(Engine { owned: true, handle: init_handle })
    }

    /// Wraps an externally supplied, already valid handle as non-owning.
    /// A null handle is rejected.
    pub fn wrap(handle: usize) -> (r: Result<Engine, Error>)
        ensures
            match r {
                Ok(e) => handle != 0 && e == (Engine { owned: false, handle }),
                Err(e) => handle == 0 && e is Null,
            },
    {
        if handle == 0 {
            return Err(Error::Null());
        }
        Ok(Engine { owned: false, handle })
    }

    /// Decodes the engine's reported name: `fetched` is the raw text the
    /// native accessor returned, or `None` when it reported no value.
    /// Invalid encoding surfaces as an error, never a panic.
    pub fn name(&self, fetched: Option<Vec<u8>>) -> (r: Result<Option<String>, Error>)
        ensures
            decoded_native_text(fetched, r),
    {
        decode_optional_text(fetched)
    }

    /// Decodes the engine's reported version; same contract as `name`.
    pub fn version(&self, fetched: Option<Vec<u8>>) -> (r: Result<Option<String>, Error>)
        ensures
            decoded_native_text(fetched, r),
    {
        decode_optional_text(fetched)
    }
}

/// What decoding an optional native text must yield: absence stays `None`,
/// valid bytes decode, invalid encoding is a wrapper error.
pub open spec fn decoded_native_text(fetched: Option<Vec<u8>>, r: Result<Option<String>, Error>)
    -> bool {
    match fetched {
        None => r == Result::<Option<String>, Error>::Ok(None),
        Some(b) => match r {
            Ok(o) => o matches Some(s) && valid_utf8(b@) && s@ == decode_utf8(b@),
            Err(e) => !valid_utf8(b@) && e is WrapperError,
        },
    }
}

/// Shared decoder for accessors whose native value may be absent.
pub(crate) fn decode_optional_text(fetched: Option<Vec<u8>>) -> (r: Result<Option<String>, Error>)
    ensures
        decoded_native_text(fetched, r),
{
    match fetched {
        None => Ok(None),
        Some(b) => match decode_text(b) {
            Ok(s) => Ok(Some(s)),
            Err(e) => Err(e),
        },
    }
}

} // verus!
