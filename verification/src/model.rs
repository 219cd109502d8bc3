//! Model: a read-only, non-owning metadata view over a context's
//! currently loaded model. The wrapper holds no bytes and extends no
//! lifetime; its native pointer is valid only while the owning context
//! keeps that model loaded.
//!
//! Every accessor decodes and validates what the corresponding native
//! read produced, handed in as a plain value: text as raw bytes (`None`
//! for a null pointer), lists as vectors (`None` for a null pointer), and
//! counts or indices with their documented failure sentinels. A sentinel
//! is a wrapper error, never a panic.

use crate::error::Error;
use crate::tensor::TensorType;
use crate::text::{decode_text, has_nul_byte};
use vstd::prelude::*;
use vstd::string::StringExecFns;
use vstd::string::StringSliceAdditionalSpecFns;
use vstd::utf8::{decode_utf8, valid_utf8};

verus! {

/// Read-only metadata view; the handle is the native pointer's address,
/// nonzero for a valid model.
pub struct Model {
    pub handle: usize,
}

/// What surfacing a required native text must yield: a null pointer and
/// an invalid encoding are wrapper errors, valid bytes decode.
pub open spec fn required_text_ok(fetched: Option<Vec<u8>>, r: Result<String, Error>) -> bool {
    match r {
        Ok(s) => fetched matches Some(b) && valid_utf8(b@) && s@ == decode_utf8(b@),
        Err(e) => e is WrapperError && match fetched {
            None => true,
            Some(b) => !valid_utf8(b@),
        },
    }
}

/// Shared decoder for accessors whose native text must be present.
fn decode_required_text(fetched: Option<Vec<u8>>, missing: &str) -> (r: Result<String, Error>)
    ensures
        required_text_ok(fetched, r),
        r is Err && fetched is None ==> (r matches Err(e) && e matches Error::WrapperError(m)
            && m@ == missing@),
{
    match fetched {
        None => Err(Error::WrapperError(String::from_str(missing))),
        Some(b) => decode_text(b),
    }
}

impl Model {
    /// A valid model wraps a non-null native handle.
    pub open spec fn wf(&self) -> bool {
        self.handle != 0
    }

    /// Wraps the native model pointer a context reported; null is
    /// rejected.
    pub fn try_from_ptr(handle: usize) -> (r: Result<Model, Error>)
        ensures
            match r {
                Ok(m) => handle != 0 && m == (Model { handle }),
                Err(e) => handle == 0 && (e matches Error::WrapperError(m) && m@
                    == "try_from_ptr: pointer is null"@),
            },
    {
        if handle == 0 {
            return Err(Error::WrapperError(String::from_str("try_from_ptr: pointer is null")));
        }
        Ok(Model { handle })
    }

    /// Decodes the model's name; `fetched` is the raw text the native
    /// accessor returned, `None` for null.
    pub fn name(&self, fetched: Option<Vec<u8>>) -> (r: Result<String, Error>)
        ensures
            required_text_ok(fetched, r),
    {
        decode_required_text(fetched, "nn_model_name is null")
    }

    /// Surfaces the model's label count; the native zero return means "no
    /// labels or the model is invalid" and is rejected.
    pub fn label_count(&self, fetched: i32) -> (r: Result<i32, Error>)
        ensures
            match r {
                Ok(n) => fetched != 0 && n == fetched,
                Err(e) => fetched == 0 && e is WrapperError,
            },
    {
        if fetched == 0 {
            return Err(Error::WrapperError(String::from_str("No labels or model is invalid")));
        }
        Ok(fetched)
    }

    /// Decodes the label at `index`; `fetched` is the raw text the native
    /// accessor returned, `None` for null (index out of range).
    pub fn label(&self, index: i32, fetched: Option<Vec<u8>>) -> (r: Result<String, Error>)
        ensures
            required_text_ok(fetched, r),
    {
        decode_required_text(fetched, "label was NULL")
    }

    /// Surfaces the model's input layer indices; a null native return is
    /// a wrapper error.
    pub fn inputs(&self, fetched: Option<Vec<u32>>) -> (r: Result<Vec<u32>, Error>)
        ensures
            match r {
                Ok(v) => fetched matches Some(f) && v@ == f@,
                Err(e) => fetched is None && e is WrapperError,
            },
    {
        match fetched {
            Some(v) => Ok(v),
            None => Err(Error::WrapperError(String::from_str("could not get model inputs"))),
        }
    }

    /// Surfaces the model's output layer indices; a null native return is
    /// a wrapper error.
    pub fn outputs(&self, fetched: Option<Vec<u32>>) -> (r: Result<Vec<u32>, Error>)
        ensures
            match r {
                Ok(v) => fetched matches Some(f) && v@ == f@,
                Err(e) => fetched is None && e is WrapperError,
            },
    {
        match fetched {
            Some(v) => Ok(v),
            None => Err(Error::WrapperError(String::from_str("could not get model outputs"))),
        }
    }

    /// The model's layer count, as the native read reported it.
    pub fn layer_count(&self, fetched: usize) -> (r: usize)
        ensures
            r == fetched,
    {
        fetched
    }

    /// Decodes the name of the layer at `index`; null means the index is
    /// out of range.
    pub fn layer_name(&self, index: usize, fetched: Option<Vec<u8>>) -> (r: Result<String, Error>)
        ensures
            required_text_ok(fetched, r),
    {
        decode_required_text(fetched, "nn_model_layer_name returned null")
    }

    /// Resolves a layer name to its index. A name with a NUL byte cannot
    /// be represented in the native string encoding and is rejected
    /// before any native call; the native `-1` sentinel means the name
    /// was not found.
    pub fn layer_lookup(&self, name: &str, fetched: i32) -> (r: Result<i32, Error>)
        ensures
            match r {
                Ok(n) => !has_nul_byte(name.spec_bytes()) && fetched != -1 && n == fetched,
                Err(e) => e is WrapperError && (has_nul_byte(name.spec_bytes()) || fetched == -1),
            },
    {
        if crate::text::contains_nul_byte(name.as_bytes()) {
            return Err(Error::WrapperError(String::from_str("name contains a nul byte")));
        }
        if fetched == -1 {
            return Err(Error::WrapperError(String::from_str("Could not get index of layer")));
        }
        Ok(fetched)
    }

    /// Decodes the type name of the layer at `index`; null means the
    /// index is out of range.
    pub fn layer_type(&self, index: usize, fetched: Option<Vec<u8>>) -> (r: Result<String, Error>)
        ensures
            required_text_ok(fetched, r),
    {
        decode_required_text(fetched, "index out of range")
    }

    /// Surfaces the numeric type tag of the layer at `index`; the native
    /// zero sentinel means the index is out of range.
    pub fn layer_type_id(&self, index: usize, fetched: i16) -> (r: Result<i16, Error>)
        ensures
            match r {
                Ok(n) => fetched != 0 && n == fetched,
                Err(e) => fetched == 0 && e is WrapperError,
            },
    {
        if fetched == 0 {
            return Err(Error::WrapperError(String::from_str("index out of range")));
        }
        Ok(fetched)
    }

    /// Decodes the data-type name of the layer at `index`; null means the
    /// index is out of range.
    pub fn layer_datatype(&self, index: usize, fetched: Option<Vec<u8>>) -> (r: Result<
        String,
        Error,
    >)
        ensures
            required_text_ok(fetched, r),
    {
        decode_required_text(fetched, "index out of range")
    }

    /// Decodes the data-type tag of the layer at `index` into the tensor
    /// element-type enumeration. The native zero sentinel means "invalid
    /// model or index out of range"; a nonzero tag outside the
    /// enumeration is rejected as unrecognized.
    pub fn layer_datatype_id(&self, index: usize, fetched: i32) -> (r: Result<TensorType, Error>)
        ensures
            match r {
                Ok(t) => 0 < fetched <= 12 && t.id_spec() == fetched,
                Err(e) => (fetched <= 0 || fetched > 12) && e is WrapperError,
            },
    {
        if fetched <= 0 {
            return Err(
                Error::WrapperError(String::from_str("Model is invalid or Index is out of range")),
            );
        }
        if fetched > 12 {
            return Err(Error::WrapperError(String::from_str("Not a valid TensorType")));
        }
        match TensorType::try_from(fetched as u32) {
            Ok(t) => Ok(t),
            Err(_) => Err(Error::WrapperError(String::from_str("Not a valid TensorType"))),
        }
    }

    /// Surfaces the zero-point vector of the layer at `index`; a null
    /// native return or its `-1` count sentinel (handed in as `None`)
    /// means the index is out of range.
    pub fn layer_zeros(&self, index: usize, fetched: Option<Vec<i32>>) -> (r: Result<
        Vec<i32>,
        Error,
    >)
        ensures
            match r {
                Ok(v) => fetched matches Some(f) && v@ == f@,
                Err(e) => fetched is None && e is WrapperError,
            },
    {
        match fetched {
            Some(v) => Ok(v),
            None => Err(Error::WrapperError(String::from_str("Index out of range"))),
        }
    }

    /// Surfaces the quantization scale vector of the layer at `index`, as
    /// the scales' IEEE-754 bit patterns; a null native return or its
    /// `-1` count sentinel (handed in as `None`) means the index is out
    /// of range.
    pub fn layer_scales(&self, index: usize, fetched: Option<Vec<u32>>) -> (r: Result<
        Vec<u32>,
        Error,
    >)
        ensures
            match r {
                Ok(v) => fetched matches Some(f) && v@ == f@,
                Err(e) => fetched is None && e is WrapperError,
            },
    {
        match fetched {
            Some(v) => Ok(v),
            None => Err(Error::WrapperError(String::from_str("Index out of range"))),
        }
    }

    /// Surfaces the quantization axis of the layer at `index`. The native
    /// zero return is ambiguous — it stands both for "the axis is 0" and
    /// for "index out of range" — and is surfaced as the error, keeping
    /// the native contract's documented reading rather than guessing.
    pub fn layer_axis(&self, index: usize, fetched: i32) -> (r: Result<i32, Error>)
        ensures
            match r {
                Ok(n) => fetched != 0 && n == fetched,
                Err(e) => fetched == 0 && e is WrapperError,
            },
    {
        if fetched == 0 {
            return Err(Error::WrapperError(String::from_str("Index out of range")));
        }
        Ok(fetched)
    }

    /// Surfaces the shape of the layer at `index`; a null native return
    /// or its `-1` count sentinel (handed in as `None`) means the index
    /// is out of range.
    pub fn layer_shape(&self, index: usize, fetched: Option<Vec<i32>>) -> (r: Result<
        Vec<i32>,
        Error,
    >)
        ensures
            match r {
                Ok(v) => fetched matches Some(f) && v@ == f@,
                Err(e) => fetched is None && e is WrapperError,
            },
    {
        match fetched {
            Some(v) => Ok(v),
            None => Err(Error::WrapperError(String::from_str("Index out of range"))),
        }
    }
}

} // verus!
