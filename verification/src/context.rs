//! Context: an execution session binding one engine to a loaded model and
//! the tensor wrappers derived from it.
//!
//! The context owns the loaded model's serialized bytes — the native
//! runtime parses them zero-copy and keeps pointers into them for as long
//! as the model is loaded, so the buffer is retained until `unload_model`
//! (the caller tells the runtime to release its parsed view before this
//! wrapper drops or replaces the buffer). It also keeps a cache mapping
//! layer index to a previously constructed tensor wrapper: at most one
//! wrapper per index ever exists, a lookup that finds an entry returns it
//! rather than constructing a duplicate, and the cache is cleared
//! wholesale whenever the model changes.
//!
//! The lazy caches assume single-writer, non-reentrant access: every
//! resolving method takes the context exclusively (`&mut self`), so a
//! re-entrant or concurrent borrow of the cache is ruled out at compile
//! time rather than detected at run time. Sharing one context across
//! threads needs external mutual exclusion, exactly as at the native
//! layer.

use crate::engine::Engine;
use crate::error::{native_error, Error};
use crate::model::Model;
use crate::tensor::{fresh_tensor, resolved_engine, Tensor, TensorV};
use crate::text::has_nul_byte;
use vstd::prelude::*;
use vstd::string::StringExecFns;
use vstd::string::StringSliceAdditionalSpecFns;

verus! {

/// Mathematical model of a context's state.
#[verifier::ext_equal]
pub struct ContextV {
    pub owned: bool,
    pub handle: usize,
    pub engine: Option<Engine>,
    pub model_data: Option<Seq<u8>>,
    pub model: Option<Model>,
    pub tensors: Seq<(usize, TensorV)>,
}

/// Execution context bound to one engine. `owned` says whether the native
/// context must be released when the wrapper is retired; `engine` and
/// `model` are lazily resolved references; `model_data` is the retained
/// model byte buffer; `tensors` the index-keyed wrapper cache.
pub struct Context {
    pub owned: bool,
    pub handle: usize,
    pub engine: Option<Engine>,
    pub model_data: Option<Vec<u8>>,
    pub model: Option<Model>,
    pub tensors: Vec<(usize, Tensor)>,
}

impl View for Context {
    type V = ContextV;

    open spec fn view(&self) -> ContextV {
        ContextV {
            owned: self.owned,
            handle: self.handle,
            engine: self.engine,
            model_data: match self.model_data {
                Some(d) => Some(d@),
                None => None,
            },
            model: self.model,
            tensors: Seq::new(
                self.tensors@.len(),
                |i: int| (self.tensors@[i].0, self.tensors@[i].1@),
            ),
        }
    }
}

/// First wrapper cached under `index`, if any.
pub open spec fn cache_lookup(s: Seq<(usize, TensorV)>, index: usize) -> Option<TensorV>
    decreases s.len(),
{
    if s.len() == 0 {
        None
    } else if s[0].0 == index {
        Some(s[0].1)
    } else {
        cache_lookup(s.drop_first(), index)
    }
}

/// The cache holds at most one wrapper per layer index.
pub open spec fn cache_wf(s: Seq<(usize, TensorV)>) -> bool {
    forall|i: int, j: int| 0 <= i < j < s.len() ==> s[i].0 != s[j].0
}

/// A lookup misses exactly when no entry carries the index.
pub proof fn lemma_lookup_none_iff(s: Seq<(usize, TensorV)>, index: usize)
    ensures
        cache_lookup(s, index) is None <==> (forall|j: int| 0 <= j < s.len() ==> s[j].0 != index),
    decreases s.len(),
{
    if s.len() > 0 {
        lemma_lookup_none_iff(s.drop_first(), index);
        if s[0].0 != index {
            if cache_lookup(s, index) is None {
                assert forall|j: int| 0 <= j < s.len() implies s[j].0 != index by {
                    if j >= 1 {
                        assert(s.drop_first()[j - 1] == s[j]);
                    }
                }
            } else {
                let j = choose|j: int|
                    0 <= j < s.drop_first().len() && s.drop_first()[j].0 == index;
                assert(s[j + 1].0 == index);
            }
        }
    }
}

/// The first entry carrying the index is what a lookup returns.
pub proof fn lemma_lookup_found(s: Seq<(usize, TensorV)>, index: usize, i: int)
    requires
        0 <= i < s.len(),
        s[i].0 == index,
        forall|j: int| 0 <= j < i ==> s[j].0 != index,
    ensures
        cache_lookup(s, index) == Some(s[i].1),
    decreases s.len(),
{
    if i > 0 {
        assert(s.drop_first()[i - 1] == s[i]);
        assert(forall|j: int| 0 <= j < i - 1 ==> s.drop_first()[j] == s[j + 1]);
        lemma_lookup_found(s.drop_first(), index, i - 1);
    }
}

/// Caching a wrapper under an index the cache misses makes lookups of
/// that index find exactly it: the entry a resolution creates is the one
/// every later resolution returns.
pub proof fn lemma_lookup_push(s: Seq<(usize, TensorV)>, index: usize, t: TensorV)
    requires
        cache_lookup(s, index) is None,
    ensures
        cache_lookup(s.push((index, t)), index) == Some(t),
    decreases s.len(),
{
    if s.len() == 0 {
        assert(s.push((index, t))[0] == (index, t));
    } else {
        assert(s.push((index, t))[0] == s[0]);
        assert(s.push((index, t)).drop_first() =~= s.drop_first().push((index, t)));
        lemma_lookup_push(s.drop_first(), index, t);
    }
}

/// How a lazily resolved model reference settles: an already cached model
/// stays; otherwise a non-null fetched handle is wrapped, and a null one
/// resolves to nothing.
pub open spec fn resolved_model(cur: Option<Model>, fetched: usize) -> Option<Model> {
    if cur is Some {
        cur
    } else if fetched != 0 {
        Some(Model { handle: fetched })
    } else {
        None
    }
}

/// The state of a freshly wrapped native context: no model bytes, no
/// resolved model, an empty wrapper cache.
pub open spec fn fresh_context(owned: bool, handle: usize, engine: Option<Engine>) -> ContextV {
    ContextV { owned, handle, engine, model_data: None, model: None, tensors: Seq::empty() }
}

/// The state unloading leaves a context in: the resolved model reference,
/// the wrapper cache and the retained byte buffer are all cleared, and
/// nothing else changes.
pub open spec fn unloaded_state(c: ContextV) -> ContextV {
    ContextV { model_data: None, model: None, tensors: Seq::empty(), ..c }
}

/// The state a load request leaves a context in, whatever its outcome:
/// the previous model's state is cleared and the new bytes are retained
/// (the runtime parses them by reference, never copying them).
pub open spec fn staged_state(c: ContextV, data: Seq<u8>) -> ContextV {
    ContextV { model_data: Some(data), model: None, tensors: Seq::empty(), ..c }
}

/// The state a resolution of layer index `index` leaves the cache in,
/// `fetched` being the native tensor handle: a hit changes nothing, a
/// miss caches a fresh borrowed wrapper.
pub open spec fn tensor_index_transition(c: ContextV, index: usize, fetched: usize) -> ContextV {
    if fetched == 0 {
        c
    } else {
        match cache_lookup(c.tensors, index) {
            Some(_) => c,
            None => ContextV {
                tensors: c.tensors.push((index, fresh_tensor(false, fetched))),
                ..c
            },
        }
    }
}

/// The wrapper a resolution of layer index `index` returns: the cached
/// one on a hit, a fresh borrowed one on a miss, none for a null handle.
pub open spec fn tensor_index_result(c: ContextV, index: usize, fetched: usize) -> Option<
    TensorV,
> {
    if fetched == 0 {
        None
    } else {
        match cache_lookup(c.tensors, index) {
            Some(t) => Some(t),
            None => Some(fresh_tensor(false, fetched)),
        }
    }
}

impl Context {
    /// A valid context wraps a non-null native handle and a cache with at
    /// most one wrapper per index.
    pub open spec fn wf(&self) -> bool {
        self.handle != 0 && cache_wf(self@.tensors)
    }

    /// Builds the wrapper for a freshly initialized native context bound
    /// to `engine`. `memory_size` and `cache_size` are the opaque sizing
    /// budgets the caller passed through to the runtime, and `handle` is
    /// what native initialization returned (zero for null, which is
    /// rejected). The result owns its handle and starts with the engine
    /// resolved, no model and an empty cache.
    pub fn new(engine: Engine, memory_size: usize, cache_size: usize, handle: usize) -> (r: Result<
        Context,
        Error,
    >)
        ensures
            match r {
                Ok(c) => handle != 0 && c@ == fresh_context(true, handle, Some(engine))
                    && c.wf(),
                Err(e) => handle == 0 && (e matches Error::WrapperError(m) && m@
                    == "nn_context_init returned null"@),
            },
    {
        if handle == 0 {
            return Err(Error::WrapperError(String::from_str("nn_context_init returned null")));
        }
        let c = Context {
            owned: true,
            handle,
            engine: Some(engine),
            model_data: None,
            model: None,
            tensors: Vec::new(),
        };
        proof {
            assert(c@ =~= fresh_context(true, handle, Some(engine)));
        }
        Ok(c)
    }

    /// Wraps an already existing native context handle as non-owning;
    /// null is rejected. Nothing is resolved yet.
    pub fn from_ptr(handle: usize) -> (r: Result<Context, Error>)
        ensures
            match r {
                Ok(c) => handle != 0 && c@ == fresh_context(false, handle, None) && c.wf(),
                Err(e) => handle == 0 && (e matches Error::WrapperError(m) && m@
                    == "ptr is null"@),
            },
    {
        if handle == 0 {
            return Err(Error::WrapperError(String::from_str("ptr is null")));
        }
        let c = Context {
            owned: false,
            handle,
            engine: None,
            model_data: None,
            model: None,
            tensors: Vec::new(),
        };
        proof {
            assert(c@ =~= fresh_context(false, handle, None));
        }
        Ok(c)
    }

    /// Resolves the context's engine: an already resolved engine is
    /// returned as is — the binding is immutable for the context's
    /// lifetime, so it settles at most once — and otherwise `fetched`,
    /// the native accessor's result, is wrapped as borrowed and cached,
    /// null resolving to `None`.
    pub fn engine(&mut self, fetched: usize) -> (r: Option<&Engine>)
        ensures
            final(self)@ == (ContextV {
                engine: resolved_engine(old(self)@.engine, fetched),
                ..old(self)@
            }),
            match r {
                Some(e) => final(self).engine matches Some(en) && *e == en,
                None => final(self).engine is None,
            },
    {
        if self.engine.is_some() {
            proof {
                assert(self@ =~= (ContextV {
                    engine: resolved_engine(old(self)@.engine, fetched),
                    ..old(self)@
                }));
            }
            return self.engine.as_ref();
        }
        if fetched == 0 {
            proof {
                assert(self@ =~= (ContextV {
                    engine: resolved_engine(old(self)@.engine, fetched),
                    ..old(self)@
                }));
            }
            return None;
        }
        self.engine = Some(Engine { owned: false, handle: fetched });
        proof {
            assert(self@ =~= (ContextV {
                engine: resolved_engine(old(self)@.engine, fetched),
                ..old(self)@
            }));
        }
        self.engine.as_ref()
    }

    /// Resolves the context's current model: an already resolved model is
    /// returned as is, and otherwise `fetched`, the native accessor's
    /// result, is wrapped and cached, null — no model loaded — resolving
    /// to `None`. A caller cannot distinguish "no model loaded" from a
    /// model the wrapper could not represent through this call alone.
    pub fn model(&mut self, fetched: usize) -> (r: Option<&Model>)
        ensures
            final(self)@ == (ContextV {
                model: resolved_model(old(self)@.model, fetched),
                ..old(self)@
            }),
            match r {
                Some(m) => final(self).model matches Some(mo) && *m == mo,
                None => final(self).model is None,
            },
    {
        if self.model.is_some() {
            proof {
                assert(self@ =~= (ContextV {
                    model: resolved_model(old(self)@.model, fetched),
                    ..old(self)@
                }));
            }
            return self.model.as_ref();
        }
        if fetched == 0 {
            proof {
                assert(self@ =~= (ContextV {
                    model: resolved_model(old(self)@.model, fetched),
                    ..old(self)@
                }));
            }
            return None;
        }
        self.model = Some(Model { handle: fetched });
        proof {
            assert(self@ =~= (ContextV {
                model: resolved_model(old(self)@.model, fetched),
                ..old(self)@
            }));
        }
        self.model.as_ref()
    }

    /// Applies the outcome of a model load. The caller has told the
    /// runtime to release any previous model, then asked it to parse
    /// `data` in place; `code` / `description` are its verdict. Whatever
    /// the outcome, the previous model's resolved reference and wrapper
    /// cache are cleared and `data` is retained — the runtime keeps
    /// pointers into it, so the buffer must live here until the next
    /// unload. A failing parse is surfaced as the native error and leaves
    /// no model bound.
    pub fn load_model(&mut self, data: Vec<u8>, code: i32, description: Option<String>) -> (r:
        Result<(), Error>)
        ensures
            final(self)@ == staged_state(old(self)@, data@),
            old(self).wf() ==> final(self).wf(),
            code == 0 <==> r is Ok,
            code != 0 ==> (r matches Err(e) && e == native_error(description)),
    {
        self.model = None;
        self.model_data = Some(data);
        self.tensors = Vec::new();
        proof {
            assert(self@ =~= staged_state(old(self)@, self.model_data->0@));
        }
        if code != 0 {
            return Err(Error::from_native(description));
        }
        Ok(())
    }

    /// Clears the wrapper's model state: the resolved model reference,
    /// the tensor wrapper cache and the retained byte buffer. The caller
    /// has told the runtime to release its parsed view first (the native
    /// release tolerates "nothing loaded", so this is safe with no model
    /// bound). No previously returned wrapper remains reachable through
    /// the cache.
    pub fn unload_model(&mut self)
        ensures
            final(self)@ == unloaded_state(old(self)@),
            old(self).wf() ==> final(self).wf(),
    {
        self.model = None;
        self.model_data = None;
        self.tensors = Vec::new();
        proof {
            assert(self@ =~= unloaded_state(old(self)@));
        }
    }

    /// The runtime executes the loaded model's graph when asked; nothing
    /// of the wrapper's state takes part.
    pub fn run_model(&self) {
    }

    /// Resolves the tensor wrapper for layer index `index`; `fetched` is
    /// the native tensor handle the caller looked up (zero for null,
    /// meaning the index is out of range). A cached wrapper is returned
    /// as is — never a second wrapper over the same index — and a miss
    /// caches a fresh borrowed one.
    #[verifier::loop_isolation(false)]
    pub fn tensor_index(&mut self, index: usize, fetched: usize) -> (r: Result<&Tensor, Error>)
        requires
            old(self).wf(),
        ensures
            final(self).wf(),
            final(self)@ == tensor_index_transition(old(self)@, index, fetched),
            match r {
                Ok(t) => fetched != 0 && tensor_index_result(old(self)@, index, fetched) == Some(
                    t@,
                ) && cache_lookup(final(self)@.tensors, index) == Some(t@),
                Err(e) => fetched == 0 && (e matches Error::WrapperError(m) && m@
                    == "No tensor found"@),
            },
    {
        if fetched == 0 {
            return Err(Error::WrapperError(String::from_str("No tensor found")));
        }
        let n = self.tensors.len();
        let mut i: usize = 0;
        while i < n
            invariant
                n == self.tensors@.len(),
                0 <= i <= n,
                forall|j: int| 0 <= j < i ==> self.tensors@[j].0 != index,
            decreases n - i,
        {
            if self.tensors[i].0 == index {
                proof {
                    lemma_lookup_found(self@.tensors, index, i as int);
                }
                return Ok(&self.tensors[i].1);
            }
            i += 1;
        }
        proof {
            lemma_lookup_none_iff(self@.tensors, index);
        }
        let t = match Tensor::from_ptr(fetched, false) {
            Ok(t) => t,
            Err(e) => {
                return Err(e);
            },
        };
        proof {
            lemma_lookup_push(self@.tensors, index, t@);
        }
        self.tensors.push((index, t));
        proof {
            assert(self@.tensors =~~= old(self)@.tensors.push(
                (index, fresh_tensor(false, fetched)),
            ));
            assert(self@ =~= tensor_index_transition(old(self)@, index, fetched));
            lemma_lookup_none_iff(old(self)@.tensors, index);
        }
        let pos = self.tensors.len() - 1;
        Ok(&self.tensors[pos].1)
    }

    /// Like `tensor_index`, but hands the cached wrapper out mutably (to
    /// install runtime-reported metadata on it, or set its scales).
    #[verifier::loop_isolation(false)]
    pub fn tensor_index_mut(&mut self, index: usize, fetched: usize) -> (r: Result<
        &mut Tensor,
        Error,
    >)
        requires
            old(self).wf(),
        ensures
            match r {
                Ok(t) => {
                    let staged = tensor_index_transition(old(self)@, index, fetched);
                    &&& fetched != 0
                    &&& tensor_index_result(old(self)@, index, fetched) == Some((*t)@)
                    &&& final(self)@.tensors.len() == staged.tensors.len()
                    &&& forall|j: int|
                        0 <= j < staged.tensors.len() ==> #[trigger] final(self)@.tensors[j].0
                            == staged.tensors[j].0
                    &&& forall|j: int|
                        0 <= j < staged.tensors.len() && #[trigger] staged.tensors[j].0 == index
                            ==> final(self)@.tensors[j] == (index, (*final(t))@)
                },
                Err(e) => fetched == 0 && final(self)@ == old(self)@ && final(self).wf() && (e
                    matches Error::WrapperError(m) && m@ == "No tensor found"@),
            },
    {
        if fetched == 0 {
            return Err(Error::WrapperError(String::from_str("No tensor found")));
        }
        let n = self.tensors.len();
        let mut i: usize = 0;
        while i < n
            invariant
                n == self.tensors@.len(),
                0 <= i <= n,
                self.tensors@ == old(self).tensors@,
                forall|j: int| 0 <= j < i ==> self.tensors@[j].0 != index,
            decreases n - i,
        {
            if self.tensors[i].0 == index {
                proof {
                    assert(self@.tensors =~= old(self)@.tensors);
                    lemma_lookup_found(old(self)@.tensors, index, i as int);
                }
                let entry = &mut self.tensors[i];
                let tref = &mut entry.1;
                proof {
                    assert((*tref) == old(self).tensors@[i as int].1);
                    assert((*tref)@ == old(self)@.tensors[i as int].1);
                    assert(tensor_index_result(old(self)@, index, fetched) == Some((*tref)@));
                }
                return Ok(tref);
            }
            i += 1;
        }
        proof {
            lemma_lookup_none_iff(self@.tensors, index);
        }
        let t = match Tensor::from_ptr(fetched, false) {
            Ok(t) => t,
            Err(e) => {
                return Err(e);
            },
        };
        proof {
            lemma_lookup_push(self@.tensors, index, t@);
        }
        self.tensors.push((index, t));
        let pos = self.tensors.len() - 1;
        let entry = &mut self.tensors[pos];
        Ok(&mut entry.1)
    }

    /// Resolves the tensor wrapper for the layer named `name`. The name
    /// must be representable in the native string encoding (no NUL byte);
    /// `fetched` is the native by-name tensor lookup's result (zero for
    /// null: no such tensor); `index` is what the current model resolved
    /// the name to (`-1` for not found), which keys the cache — the model
    /// must already be resolved, and a missing model or unresolved name
    /// is an error. Caching behaves exactly as in `tensor_index`.
    pub fn tensor(&mut self, name: &str, fetched: usize, index: i32) -> (r: Result<
        &Tensor,
        Error,
    >)
        requires
            old(self).wf(),
        ensures
            final(self).wf(),
            ({
                let rejected = has_nul_byte(name.spec_bytes()) || fetched == 0 || old(
                    self,
                ).model is None || index < 0;
                match r {
                    Ok(t) => !rejected && final(self)@ == tensor_index_transition(
                        old(self)@,
                        index as usize,
                        fetched,
                    ) && tensor_index_result(old(self)@, index as usize, fetched) == Some(t@)
                        && cache_lookup(final(self)@.tensors, index as usize) == Some(t@),
                    Err(e) => rejected && final(self)@ == old(self)@ && e is WrapperError,
                }
            }),
    {
        if crate::text::contains_nul_byte(name.as_bytes()) {
            return Err(Error::WrapperError(String::from_str("name contains a nul byte")));
        }
        if fetched == 0 {
            return Err(Error::WrapperError(String::from_str("No tensor found")));
        }
        if self.model.is_none() {
            return Err(Error::WrapperError(String::from_str("Could not get index")));
        }
        if index < 0 {
            return Err(Error::WrapperError(String::from_str("Could not get index")));
        }
        self.tensor_index(index as usize, fetched)
    }
}

/// Two successive resolutions of the same layer index return the same
/// wrapper and the second changes nothing: the cache never constructs two
/// independent wrappers for one index.
pub proof fn lemma_tensor_index_idempotent(
    c: ContextV,
    index: usize,
    fetched1: usize,
    fetched2: usize,
)
    requires
        fetched1 != 0,
        fetched2 != 0,
    ensures
        ({
            let c1 = tensor_index_transition(c, index, fetched1);
            let r1 = tensor_index_result(c, index, fetched1);
            &&& tensor_index_transition(c1, index, fetched2) == c1
            &&& tensor_index_result(c1, index, fetched2) == r1
            &&& r1 is Some
        }),
{
    let c1 = tensor_index_transition(c, index, fetched1);
    if cache_lookup(c.tensors, index) is None {
        lemma_lookup_push(c.tensors, index, fresh_tensor(false, fetched1));
    }
    assert(tensor_index_transition(c1, index, fetched2) =~= c1);
}

/// After a model is unloaded, no model resolves, no tensor wrapper
/// remains reachable through the cache, and a later resolution of any
/// index yields a freshly constructed wrapper rather than a stale one.
pub proof fn lemma_unload_isolates(c: ContextV, index: usize, fetched: usize)
    requires
        fetched != 0,
    ensures
        unloaded_state(c).model is None,
        resolved_model(unloaded_state(c).model, 0) is None,
        cache_lookup(unloaded_state(c).tensors, index) is None,
        tensor_index_result(unloaded_state(c), index, fetched) == Some(
            fresh_tensor(false, fetched),
        ),
{
}

/// The loaded model's serialized bytes are retained for exactly as long
/// as a model may be bound: staging a load keeps them, resolving the
/// model or a tensor wrapper afterwards keeps them, and only unloading
/// releases them — the native runtime parses the buffer by reference, so
/// its parsed view never outlives the buffer.
pub proof fn lemma_model_bytes_retained(
    c: ContextV,
    data: Seq<u8>,
    fetched: usize,
    index: usize,
    handle: usize,
)
    ensures
        staged_state(c, data).model_data == Some(data),
        (ContextV {
            model: resolved_model(staged_state(c, data).model, fetched),
            ..staged_state(c, data)
        }).model_data == Some(data),
        tensor_index_transition(staged_state(c, data), index, handle).model_data == Some(data),
        unloaded_state(staged_state(c, data)).model_data is None,
{
}

/// With at most one wrapper per index, the entry that carries an index is
/// the one a lookup returns.
pub proof fn lemma_lookup_unique(s: Seq<(usize, TensorV)>, index: usize, j: int)
    requires
        cache_wf(s),
        0 <= j < s.len(),
        s[j].0 == index,
    ensures
        cache_lookup(s, index) == Some(s[j].1),
{
    lemma_lookup_found(s, index, j);
}

/// Resolving a tensor wrapper keeps the cache well formed: a hit adds
/// nothing and a miss adds an index the cache did not hold.
pub proof fn lemma_transition_keeps_cache_wf(c: ContextV, index: usize, fetched: usize)
    requires
        cache_wf(c.tensors),
    ensures
        cache_wf(tensor_index_transition(c, index, fetched).tensors),
{
    if fetched != 0 && cache_lookup(c.tensors, index) is None {
        lemma_lookup_none_iff(c.tensors, index);
        let s = c.tensors.push((index, fresh_tensor(false, fetched)));
        assert forall|i: int, j: int| 0 <= i < j < s.len() implies s[i].0 != s[j].0 by {
            if j < c.tensors.len() as int {
                assert(c.tensors[i].0 != c.tensors[j].0);
            }
        }
    }
}

} // verus!
