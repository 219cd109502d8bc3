//! Tensor: handle to a typed, shaped native data buffer, with the scoped
//! read-mapping protocol over its storage.
//!
//! The wrapper mirrors as plain values everything its decisions read of
//! the native tensor: ownership, the element type, the shape and element
//! count (installed by `alloc`, or by `set_info` from what the runtime
//! reports for a tensor it allocated itself), the quantization axis, and
//! whether a mapping is outstanding. A tensor walks Unallocated →
//! Allocated (after `alloc`) → Mapped (while a view is live, `mapro` to
//! `unmap`) → back to Allocated.

use crate::data::{bytes_accepted, mapped_data_ok, MappedData};
use crate::engine::Engine;
use crate::error::{native_error, Error};
use vstd::prelude::*;
use vstd::slice::slice_to_vec;
use vstd::string::StringExecFns;

verus! {

/// The 13 element kinds a tensor's storage can hold. `RAW` is untyped
/// bytes, `STR` NUL-terminated text; the rest are fixed-width numbers
/// (the three floating-point kinds are handled by their bit patterns).
#[derive(Clone, Copy, Debug, PartialEq, Eq, Structural)]
pub enum TensorType {
    RAW,
    STR,
    I8,
    U8,
    I16,
    U16,
    I32,
    U32,
    I64,
    U64,
    F16,
    F32,
    F64,
}

impl TensorType {
    /// The integer tag the native runtime uses for this element type.
    pub open spec fn id_spec(&self) -> u32 {
        match self {
            TensorType::RAW => 0,
            TensorType::STR => 1,
            TensorType::I8 => 2,
            TensorType::U8 => 3,
            TensorType::I16 => 4,
            TensorType::U16 => 5,
            TensorType::I32 => 6,
            TensorType::U32 => 7,
            TensorType::I64 => 8,
            TensorType::U64 => 9,
            TensorType::F16 => 10,
            TensorType::F32 => 11,
            TensorType::F64 => 12,
        }
    }

    /// The integer tag the native runtime uses for this element type.
    pub fn type_id(&self) -> (r: u32)
        ensures
            r == self.id_spec(),
    {
        match self {
            TensorType::RAW => 0,
            TensorType::STR => 1,
            TensorType::I8 => 2,
            TensorType::U8 => 3,
            TensorType::I16 => 4,
            TensorType::U16 => 5,
            TensorType::I32 => 6,
            TensorType::U32 => 7,
            TensorType::I64 => 8,
            TensorType::U64 => 9,
            TensorType::F16 => 10,
            TensorType::F32 => 11,
            TensorType::F64 => 12,
        }
    }

    /// Decodes a native element-type tag: every tag the runtime is
    /// documented to report maps to its kind, anything else is rejected.
    pub fn try_from(value: u32) -> (r: Result<TensorType, ()>)
        ensures
            match r {
                Ok(t) => value <= 12 && t.id_spec() == value,
                Err(_) => value > 12,
            },
    {
        match value {
            0 => Ok(TensorType::RAW),
            1 => Ok(TensorType::STR),
            2 => Ok(TensorType::I8),
            3 => Ok(TensorType::U8),
            4 => Ok(TensorType::I16),
            5 => Ok(TensorType::U16),
            6 => Ok(TensorType::I32),
            7 => Ok(TensorType::U32),
            8 => Ok(TensorType::I64),
            9 => Ok(TensorType::U64),
            10 => Ok(TensorType::F16),
            11 => Ok(TensorType::F32),
            12 => Ok(TensorType::F64),
            _ => Err(()),
        }
    }

    /// Bytes one element of this kind occupies in a mapped buffer (one,
    /// for the byte-granular `RAW` and `STR` kinds).
    pub open spec fn elem_width_spec(&self) -> int {
        match self {
            TensorType::RAW => 1,
            TensorType::STR => 1,
            TensorType::I8 => 1,
            TensorType::U8 => 1,
            TensorType::I16 => 2,
            TensorType::U16 => 2,
            TensorType::I32 => 4,
            TensorType::U32 => 4,
            TensorType::I64 => 8,
            TensorType::U64 => 8,
            TensorType::F16 => 2,
            TensorType::F32 => 4,
            TensorType::F64 => 8,
        }
    }

    /// Bytes one element of this kind occupies in a mapped buffer.
    pub fn elem_width(&self) -> (r: usize)
        ensures
            r == self.elem_width_spec(),
    {
        match self {
            TensorType::RAW => 1,
            TensorType::STR => 1,
            TensorType::I8 => 1,
            TensorType::U8 => 1,
            TensorType::I16 => 2,
            TensorType::U16 => 2,
            TensorType::I32 => 4,
            TensorType::U32 => 4,
            TensorType::I64 => 8,
            TensorType::U64 => 8,
            TensorType::F16 => 2,
            TensorType::F32 => 4,
            TensorType::F64 => 8,
        }
    }
}

/// Mathematical model of a tensor wrapper's state.
#[verifier::ext_equal]
pub struct TensorV {
    pub owned: bool,
    pub handle: usize,
    pub engine: Option<Engine>,
    pub scales: Option<Seq<u32>>,
    pub allocated: bool,
    pub mapped: bool,
    pub ttype: TensorType,
    pub dims: i32,
    pub shape: Seq<i32>,
    pub volume: i32,
    pub size: i32,
    pub axis: i16,
}

/// Handle to a shaped, typed native data buffer. `owned` says whether the
/// native buffer must be released when the wrapper is retired; a tensor
/// borrowed from a context never releases it. `scales` caches the
/// quantization scale vector last installed (IEEE-754 bit patterns);
/// `mapped` records whether a read view of the storage is outstanding.
pub struct Tensor {
    pub owned: bool,
    pub handle: usize,
    pub engine: Option<Engine>,
    pub scales: Option<Vec<u32>>,
    pub allocated: bool,
    pub mapped: bool,
    pub ttype: TensorType,
    pub dims: i32,
    pub shape: Vec<i32>,
    pub volume: i32,
    pub size: i32,
    pub axis: i16,
}

impl View for Tensor {
    type V = TensorV;

    open spec fn view(&self) -> TensorV {
        TensorV {
            owned: self.owned,
            handle: self.handle,
            engine: self.engine,
            scales: match self.scales {
                Some(v) => Some(v@),
                None => None,
            },
            allocated: self.allocated,
            mapped: self.mapped,
            ttype: self.ttype,
            dims: self.dims,
            shape: self.shape@,
            volume: self.volume,
            size: self.size,
            axis: self.axis,
        }
    }
}

/// The state of a freshly wrapped native tensor: nothing allocated or
/// mapped yet, no metadata known beyond the handle and its ownership.
pub open spec fn fresh_tensor(owned: bool, handle: usize) -> TensorV {
    TensorV {
        owned,
        handle,
        engine: None,
        scales: None,
        allocated: false,
        mapped: false,
        ttype: TensorType::RAW,
        dims: 0,
        shape: Seq::empty(),
        volume: 0,
        size: 0,
        axis: 0,
    }
}

/// Whether an allocation request is representable: one to three
/// dimensions, none negative, and every partial product of the extents
/// fitting the native element-count type.
pub open spec fn alloc_shape_ok(n_dims: i32, shape: Seq<i32>) -> bool {
    &&& 1 <= n_dims <= 3
    &&& shape.len() >= n_dims
    &&& forall|i: int| 0 <= i < n_dims ==> shape[i] >= 0
    &&& n_dims >= 2 ==> shape[0] * shape[1] <= i32::MAX
    &&& n_dims == 3 ==> shape[0] * shape[1] * shape[2] <= i32::MAX
}

/// Element count of an allocated shape: the product of its extents.
pub open spec fn alloc_volume(n_dims: i32, shape: Seq<i32>) -> int {
    if n_dims <= 1 {
        shape[0] as int
    } else if n_dims == 2 {
        shape[0] * shape[1]
    } else {
        shape[0] * shape[1] * shape[2]
    }
}

/// The state a successful allocation leaves a tensor in: it holds the
/// requested element type and shape, and its element count is the shape's
/// volume.
pub open spec fn alloc_state(t: TensorV, ttype: TensorType, n_dims: i32, shape: Seq<i32>)
    -> TensorV {
    TensorV {
        ttype,
        dims: n_dims,
        shape: shape.take(n_dims as int),
        volume: alloc_volume(n_dims, shape) as i32,
        size: alloc_volume(n_dims, shape) as i32,
        allocated: true,
        ..t
    }
}

/// Whether a read-mapping of tensor `t` returning bytes `b` is accepted:
/// no view may be outstanding, and the bytes must fit the tensor's
/// element type and count.
pub open spec fn map_accepts(t: TensorV, b: Seq<u8>) -> bool {
    &&& !t.mapped
    &&& bytes_accepted(t.ttype, t.size as int, b)
}

/// How a lazily resolved engine reference settles: an already cached
/// engine stays; otherwise a non-null fetched handle is wrapped as
/// borrowed, and a null one resolves to nothing.
pub open spec fn resolved_engine(cur: Option<Engine>, fetched: usize) -> Option<Engine> {
    if cur is Some {
        cur
    } else if fetched != 0 {
        Some(Engine { owned: false, handle: fetched })
    } else {
        None
    }
}

/// A scoped, read-only, element-typed view of a tensor's mapped storage.
/// It is produced only by `Tensor::mapro`; the caller releases the
/// mapping through `Tensor::unmap` when the view is retired, exactly once
/// per successful `mapro`.
pub struct TensorData {
    pub data: MappedData,
}

impl TensorData {
    /// The typed contents of the mapped storage.
    pub fn data(&self) -> (r: &MappedData)
        ensures
            r == &self.data,
    {
        &self.data
    }
}

impl Tensor {
    /// A valid wrapper holds a non-null native handle and nonnegative
    /// extent metadata.
    pub open spec fn wf(&self) -> bool {
        self.handle != 0 && self.size >= 0 && self.volume >= 0 && self.dims >= 0
    }

    /// Builds the wrapper for a freshly created native tensor.
    /// `init_handle` is what native creation returned (zero for null);
    /// `os_error` is the raw OS error code observed on failure, which the
    /// platform reports for the failed allocation. The result owns its
    /// handle.
    pub fn new(init_handle: usize, os_error: i32) -> (r: Result<Tensor, Error>)
        ensures
            match r {
                Ok(t) => init_handle != 0 && t@ == fresh_tensor(true, init_handle),
                Err(e) => init_handle == 0 && e == Error::IoError(os_error),
            },
    {
        if init_handle == 0 {
            return Err(Error::IoError(os_error));
        }
        let t = Tensor {
            owned: true,
            handle: init_handle,
            engine: None,
            scales: None,
            allocated: false,
            mapped: false,
            ttype: TensorType::RAW,
            dims: 0,
            shape: Vec::new(),
            volume: 0,
            size: 0,
            axis: 0,
        };
        proof {
            assert(t@ =~= fresh_tensor(true, init_handle));
        }
        Ok(t)
    }

    /// Wraps an already existing native tensor handle; `owned` says
    /// whether this wrapper is responsible for releasing it. A null
    /// handle is rejected.
    pub fn from_ptr(handle: usize, owned: bool) -> (r: Result<Tensor, Error>)
        ensures
            match r {
                Ok(t) => handle != 0 && t@ == fresh_tensor(owned, handle),
                Err(e) => handle == 0 && (e matches Error::WrapperError(m) && m@
                    == "ptr is null"@),
            },
    {
        if handle == 0 {
            return Err(Error::WrapperError(String::from_str("ptr is null")));
        }
        let t = Tensor {
            owned,
            handle,
            engine: None,
            scales: None,
            allocated: false,
            mapped: false,
            ttype: TensorType::RAW,
            dims: 0,
            shape: Vec::new(),
            volume: 0,
            size: 0,
            axis: 0,
        };
        proof {
            assert(t@ =~= fresh_tensor(owned, handle));
        }
        Ok(t)
    }

    /// Installs the metadata the runtime reports for a tensor whose
    /// storage it allocated itself (one obtained from a context's model):
    /// element type, dimension count, shape, volume, element count and
    /// quantization axis.
    pub fn set_info(
        &mut self,
        ttype: TensorType,
        dims: i32,
        shape: Vec<i32>,
        volume: i32,
        size: i32,
        axis: i16,
    )
        requires
            dims >= 0,
            volume >= 0,
            size >= 0,
        ensures
            final(self)@ == (TensorV {
                ttype,
                dims,
                shape: shape@,
                volume,
                size,
                axis,
                allocated: true,
                ..old(self)@
            }),
    {
        self.ttype = ttype;
        self.dims = dims;
        self.shape = shape;
        self.volume = volume;
        self.size = size;
        self.axis = axis;
        self.allocated = true;
        proof {
            assert(self@ =~= (TensorV {
                ttype,
                dims,
                shape: self.shape@,
                volume,
                size,
                axis,
                allocated: true,
                ..old(self)@
            }));
        }
    }

    /// Applies the outcome of a storage allocation request: the caller
    /// asked the runtime for storage of element type `ttype` and shape
    /// `shape` (its first `n_dims` extents), and `code` / `description`
    /// are the runtime's verdict. On success the tensor holds that
    /// element type and shape (an element count this wrapper cannot
    /// represent is a wrapper error); on failure the native error is
    /// returned and nothing changes.
    pub fn allocate(
        &mut self,
        ttype: TensorType,
        n_dims: i32,
        shape: &[i32; 3],
        code: i32,
        description: Option<String>,
    ) -> (r: Result<(), Error>)
        ensures
            code != 0 ==> final(self)@ == old(self)@ && (r matches Err(e) && e == native_error(
                description,
            )),
            code == 0 && !alloc_shape_ok(n_dims, shape@) ==> final(self)@ == old(self)@ && (
            r matches Err(e) && e is WrapperError),
            code == 0 && alloc_shape_ok(n_dims, shape@) ==> r is Ok && final(self)@ == alloc_state(
                old(self)@,
                ttype,
                n_dims,
                shape@,
            ),
    {
        if code != 0 {
            return Err(Error::from_native(description));
        }
        if n_dims < 1 || n_dims > 3 {
            return Err(Error::WrapperError(String::from_str("invalid tensor shape")));
        }
        let s0 = shape[0];
        if s0 < 0 {
            return Err(Error::WrapperError(String::from_str("invalid tensor shape")));
        }
        let mut vol: i32 = s0;
        let mut shp: Vec<i32> = Vec::new();
        shp.push(s0);
        if n_dims >= 2 {
            let s1 = shape[1];
            if s1 < 0 {
                return Err(Error::WrapperError(String::from_str("invalid tensor shape")));
            }
            proof {
                assert(s0 * s1 >= 0) by (nonlinear_arith)
                    requires
                        s0 >= 0,
                        s1 >= 0,
                ;
            }
            vol = match vol.checked_mul(s1) {
                Some(v) => v,
                None => {
                    return Err(Error::WrapperError(String::from_str("invalid tensor shape")));
                },
            };
            shp.push(s1);
        }
        if n_dims == 3 {
            let s2 = shape[2];
            if s2 < 0 {
                return Err(Error::WrapperError(String::from_str("invalid tensor shape")));
            }
            proof {
                assert(vol * s2 >= 0) by (nonlinear_arith)
                    requires
                        vol >= 0,
                        s2 >= 0,
                ;
            }
            vol = match vol.checked_mul(s2) {
                Some(v) => v,
                None => {
                    return Err(Error::WrapperError(String::from_str("invalid tensor shape")));
                },
            };
            shp.push(s2);
        }
        proof {
            assert(shp@ =~= shape@.take(n_dims as int));
        }
        self.ttype = ttype;
        self.dims = n_dims;
        self.shape = shp;
        self.volume = vol;
        self.size = vol;
        self.allocated = true;
        proof {
            assert(self@ =~= alloc_state(old(self)@, ttype, n_dims, shape@));
        }
        Ok(())
    }

    /// The element type the tensor currently reports.
    pub fn tensor_type(&self) -> (r: TensorType)
        ensures
            r == self.ttype,
    {
        self.ttype
    }

    /// Applies the outcome of asking the runtime to retag the tensor's
    /// element type: on success the tensor reports the new type, on
    /// failure the native error is returned and nothing changes.
    pub fn set_tensor_type(&mut self, tensor_type: TensorType, code: i32, description: Option<
        String,
    >) -> (r: Result<(), Error>)
        ensures
            code == 0 ==> r is Ok && final(self)@ == (TensorV {
                ttype: tensor_type,
                ..old(self)@
            }),
            code != 0 ==> final(self)@ == old(self)@ && (r matches Err(e) && e == native_error(
                description,
            )),
    {
        if code != 0 {
            return Err(Error::from_native(description));
        }
        self.ttype = tensor_type;
        proof {
            assert(self@ =~= (TensorV { ttype: tensor_type, ..old(self)@ }));
        }
        Ok(())
    }

    /// Applies the outcome of asking the runtime to write a dequantized
    /// copy of this tensor's data into `dest`'s storage: the native
    /// verdict is surfaced, and neither wrapper's state changes.
    pub fn dequantize(&self, dest: &mut Tensor, code: i32, description: Option<String>) -> (r:
        Result<(), Error>)
        ensures
            final(dest)@ == old(dest)@,
            code == 0 ==> r is Ok,
            code != 0 ==> (r matches Err(e) && e == native_error(description)),
    {
        if code != 0 {
            return Err(Error::from_native(description));
        }
        Ok(())
    }

    /// Resolves the engine this tensor is bound to: an already resolved
    /// engine is returned as is (the binding is immutable, so it settles
    /// at most once); otherwise `fetched`, the native accessor's result,
    /// is wrapped as borrowed and cached, null resolving to `None`.
    pub fn engine(&mut self, fetched: usize) -> (r: Option<&Engine>)
        ensures
            final(self)@ == (TensorV {
                engine: resolved_engine(old(self)@.engine, fetched),
                ..old(self)@
            }),
            match r {
                Some(e) => final(self).engine matches Some(en) && *e == en,
                None => final(self).engine is None,
            },
    {
        if self.engine.is_some() {
            proof {
                assert(self@ =~= (TensorV {
                    engine: resolved_engine(old(self)@.engine, fetched),
                    ..old(self)@
                }));
            }
            return self.engine.as_ref();
        }
        if fetched == 0 {
            proof {
                assert(self@ =~= (TensorV {
                    engine: resolved_engine(old(self)@.engine, fetched),
                    ..old(self)@
                }));
            }
            return None;
        }
        self.engine = Some(Engine { owned: false, handle: fetched });
        proof {
            assert(self@ =~= (TensorV {
                engine: resolved_engine(old(self)@.engine, fetched),
                ..old(self)@
            }));
        }
        self.engine.as_ref()
    }

    /// The shape the tensor currently reports.
    pub fn shape(&self) -> (r: &Vec<i32>)
        ensures
            r@ == self@.shape,
    {
        &self.shape
    }

    /// The dimension count the tensor currently reports.
    pub fn dims(&self) -> (r: i32)
        ensures
            r == self.dims,
    {
        self.dims
    }

    /// The shape's volume (product of extents) the tensor currently
    /// reports.
    pub fn volume(&self) -> (r: i32)
        ensures
            r == self.volume,
    {
        self.volume
    }

    /// The element count the tensor currently reports.
    pub fn size(&self) -> (r: i32)
        ensures
            r == self.size,
    {
        self.size
    }

    /// The quantization axis the tensor currently reports.
    pub fn axis(&self) -> (r: i16)
        ensures
            r == self.axis,
    {
        self.axis
    }

    /// Surfaces the runtime's zero-point vector: `fetched` is what the
    /// native accessor produced, and a null return is a wrapper error.
    pub fn zeros(&self, fetched: Option<Vec<i32>>) -> (r: Result<Vec<i32>, Error>)
        ensures
            match r {
                Ok(v) => fetched matches Some(f) && v@ == f@,
                Err(e) => fetched is None && (e matches Error::WrapperError(m) && m@
                    == "zeros returned null"@),
            },
    {
        match fetched {
            Some(v) => Ok(v),
            None => Err(Error::WrapperError(String::from_str("zeros returned null"))),
        }
    }

    /// Validates and caches a quantization scale vector (IEEE-754 bit
    /// patterns), before anything is forwarded to the runtime: exactly a
    /// vector of length one, or of length equal to the tensor's
    /// quantization axis, is accepted; anything else is rejected
    /// unchanged.
    pub fn set_scales(&mut self, scales: &[u32]) -> (r: Result<(), Error>)
        ensures
            r is Ok <==> scales_len_ok(scales@.len() as int, old(self).axis),
            r is Ok ==> final(self)@ == (TensorV { scales: Some(scales@), ..old(self)@ }),
            r matches Err(e) ==> final(self)@ == old(self)@ && e is WrapperError,
    {
        let len = scales.len();
        if len == 1 || (self.axis >= 0 && len == self.axis as usize) {
            self.scales = Some(slice_to_vec(scales));
            proof {
                assert(self@ =~= (TensorV { scales: Some(scales@), ..old(self)@ }));
            }
            Ok(())
        } else {
            Err(
                Error::WrapperError(
                    String::from_str(
                        "scales should either have length of 1 or equal to channel_dimension (axis)",
                    ),
                ),
            )
        }
    }

    /// Builds the typed read view over the tensor's mapped storage.
    /// `fetched` is the mapped buffer's contents as the runtime exposed
    /// them, or `None` when mapping was refused. A second mapping before
    /// `unmap`, a refused mapping, and bytes that do not fit the tensor's
    /// element type and count are wrapper errors that leave the tensor
    /// unchanged; on success the view's variant is selected by the
    /// tensor's reported type and the mapping is recorded as outstanding
    /// until `unmap` releases it.
    pub fn mapro(&mut self, fetched: Option<Vec<u8>>) -> (r: Result<TensorData, Error>)
        ensures
            match r {
                Ok(td) => {
                    &&& fetched matches Some(b) && map_accepts(old(self)@, b@)
                        && mapped_data_ok(old(self).ttype, old(self).size as int, b@, td.data)
                    &&& final(self)@ == (TensorV { mapped: true, ..old(self)@ })
                },
                Err(e) => {
                    &&& e is WrapperError
                    &&& final(self)@ == old(self)@
                    &&& match fetched {
                        Some(b) => !map_accepts(old(self)@, b@),
                        None => true,
                    }
                },
            },
    {
        if self.mapped {
            return Err(Error::WrapperError(String::from_str("tensor is already mapped")));
        }
        let b = match fetched {
            Some(b) => b,
            None => {
                return Err(Error::WrapperError(String::from_str("nn_tensor_mapro failed")));
            },
        };
        match crate::data::decode_mapped(self.ttype, self.size, b.as_slice()) {
            Ok(d) => {
                self.mapped = true;
                proof {
                    assert(self@ =~= (TensorV { mapped: true, ..old(self)@ }));
                }
                Ok(TensorData { data: d })
            },
            Err(e) => Err(e),
        }
    }

    /// Releases the outstanding read mapping; the paired native unmap is
    /// the caller's, exactly once per successful `mapro`.
    pub fn unmap(&mut self)
        ensures
            final(self)@ == (TensorV { mapped: false, ..old(self)@ }),
    {
        self.mapped = false;
        proof {
            assert(self@ =~= (TensorV { mapped: false, ..old(self)@ }));
        }
    }
}

/// Whether a scale vector of length `len` fits a tensor whose
/// quantization axis is `axis`: a single scale for the whole tensor, or
/// one scale per position along the axis.
pub open spec fn scales_len_ok(len: int, axis: i16) -> bool {
    len == 1 || (axis >= 0 && len == axis as int)
}

/// After a successful allocation the tensor reports exactly the element
/// type it was allocated with, and its element count is the requested
/// shape's volume.
pub proof fn lemma_alloc_reports_type(t: TensorV, ttype: TensorType, n_dims: i32, shape: Seq<i32>)
    requires
        alloc_shape_ok(n_dims, shape),
    ensures
        alloc_state(t, ttype, n_dims, shape).ttype == ttype,
        alloc_state(t, ttype, n_dims, shape).size == alloc_volume(n_dims, shape),
        alloc_state(t, ttype, n_dims, shape).mapped == t.mapped,
{
}

/// Map/unmap round-trip: while a view is outstanding a second mapping is
/// refused, and once the view is released the tensor accepts exactly the
/// mappings it accepted before.
pub proof fn lemma_map_unmap_roundtrip(t: TensorV, b: Seq<u8>)
    requires
        map_accepts(t, b),
    ensures
        !map_accepts(TensorV { mapped: true, ..t }, b),
        map_accepts(TensorV { mapped: false, ..TensorV { mapped: true, ..t } }, b),
{
}

} // verus!
