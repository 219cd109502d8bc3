use deepviewrt::context::Context;
use deepviewrt::engine::Engine;
use deepviewrt::error::Error;
use deepviewrt::tensor::TensorType;

fn engine() -> Engine {
    Engine::new(0x10, "plugins/cpu.so", 0, None).unwrap()
}

#[test]
fn new_on_loaded_engine_succeeds() {
    let c = Context::new(engine(), 1 << 20, 1 << 16, 0x100).unwrap();
    assert!(c.owned);
    assert_eq!(c.handle, 0x100);
    assert!(c.model.is_none());
    assert!(c.model_data.is_none());
    assert!(c.tensors.is_empty());
}

#[test]
fn new_rejects_null_context() {
    let r = Context::new(engine(), 1 << 20, 1 << 16, 0);
    assert!(matches!(r, Err(Error::WrapperError(_))));
}

#[test]
fn from_ptr_wraps_borrowed() {
    assert!(matches!(Context::from_ptr(0), Err(Error::WrapperError(_))));
    let c = Context::from_ptr(0x200).unwrap();
    assert!(!c.owned);
    assert!(c.engine.is_none());
}

#[test]
fn engine_resolves_at_most_once() {
    let mut c = Context::new(engine(), 1 << 20, 1 << 16, 0x100).unwrap();
    // The engine was resolved at construction; later fetches are ignored.
    let e = c.engine(0x999).unwrap();
    assert_eq!(e.handle, 0x10);
    assert!(e.owned);

    let mut c = Context::from_ptr(0x200).unwrap();
    assert!(c.engine(0).is_none());
    assert_eq!(c.engine(0x55).unwrap().handle, 0x55);
    assert_eq!(c.engine(0x66).unwrap().handle, 0x55);
}

#[test]
fn model_resolves_and_caches() {
    let mut c = Context::from_ptr(0x200).unwrap();
    assert!(c.model(0).is_none());
    assert_eq!(c.model(0x300).unwrap().handle, 0x300);
    // Resolved once; a later fetch does not replace it.
    assert_eq!(c.model(0x400).unwrap().handle, 0x300);
}

#[test]
fn load_model_retains_bytes_and_surfaces_verdict() {
    let mut c = Context::new(engine(), 1 << 20, 1 << 16, 0x100).unwrap();
    let data = vec![1u8, 2, 3, 4];
    c.load_model(data.clone(), 0, None).unwrap();
    // The runtime parses the buffer in place, so it is retained here.
    assert_eq!(c.model_data, Some(data));
    assert!(c.model.is_none());

    let r = c.load_model(vec![9u8], -4, Some(String::from("bad magic")));
    assert!(matches!(r, Err(Error::NNError(m)) if m == "bad magic"));
    // A failed load leaves no model bound.
    assert!(c.model.is_none());
    assert!(c.tensors.is_empty());
}

#[test]
fn unload_model_clears_everything() {
    let mut c = Context::new(engine(), 1 << 20, 1 << 16, 0x100).unwrap();
    c.load_model(vec![1u8, 2, 3], 0, None).unwrap();
    let _ = c.model(0x300);
    let _ = c.tensor_index(4, 0x500);
    c.unload_model();
    assert!(c.model.is_none());
    assert!(c.model_data.is_none());
    assert!(c.tensors.is_empty());
    // With nothing loaded the native accessor reports null: no model.
    assert!(c.model(0).is_none());
}

#[test]
fn tensor_index_caches_one_wrapper_per_index() {
    let mut c = Context::new(engine(), 1 << 20, 1 << 16, 0x100).unwrap();
    let first = c.tensor_index(4, 0x500).unwrap().handle;
    assert_eq!(first, 0x500);
    assert_eq!(c.tensors.len(), 1);
    // A second resolution returns the cached wrapper — the same handle,
    // no second entry — even if the native lookup produced a new pointer.
    let second = c.tensor_index(4, 0x777).unwrap().handle;
    assert_eq!(second, first);
    assert_eq!(c.tensors.len(), 1);
    // Another index gets its own wrapper.
    let other = c.tensor_index(5, 0x600).unwrap().handle;
    assert_eq!(other, 0x600);
    assert_eq!(c.tensors.len(), 2);
}

#[test]
fn tensor_index_rejects_null() {
    let mut c = Context::new(engine(), 1 << 20, 1 << 16, 0x100).unwrap();
    let r = c.tensor_index(4, 0);
    assert!(matches!(r, Err(Error::WrapperError(_))));
    assert!(c.tensors.is_empty());
}

#[test]
fn tensor_index_mut_returns_cached_wrapper() {
    let mut c = Context::new(engine(), 1 << 20, 1 << 16, 0x100).unwrap();
    {
        let t = c.tensor_index_mut(2, 0x500).unwrap();
        t.set_info(TensorType::U8, 1, vec![4], 4, 4, 0);
    }
    // The mutation through the cached wrapper is visible to later lookups.
    let t = c.tensor_index(2, 0x500).unwrap();
    assert_eq!(t.tensor_type(), TensorType::U8);
    assert_eq!(t.size(), 4);
}

#[test]
fn unload_then_reload_yields_fresh_wrappers() {
    let mut c = Context::new(engine(), 1 << 20, 1 << 16, 0x100).unwrap();
    c.load_model(vec![1u8, 2, 3], 0, None).unwrap();
    {
        let t = c.tensor_index_mut(7, 0x500).unwrap();
        t.set_info(TensorType::I32, 1, vec![2], 2, 2, 0);
    }
    c.unload_model();
    c.load_model(vec![4u8, 5, 6], 0, None).unwrap();
    // The old wrapper is no longer reachable through the cache: the new
    // resolution constructs a distinct, fresh wrapper.
    let t = c.tensor_index(7, 0x500).unwrap();
    assert!(!t.allocated);
    assert_eq!(t.tensor_type(), TensorType::RAW);
}

#[test]
fn tensor_by_name_resolves_through_model() {
    let mut c = Context::new(engine(), 1 << 20, 1 << 16, 0x100).unwrap();
    // Without a resolved model the name cannot be resolved to an index.
    let r = c.tensor("input", 0x500, 3);
    assert!(matches!(r, Err(Error::WrapperError(_))));
    let _ = c.model(0x300);
    // A NUL in the name cannot reach the native encoding.
    assert!(matches!(c.tensor("in\0put", 0x500, 3), Err(Error::WrapperError(_))));
    // A null native tensor handle means no such tensor.
    assert!(matches!(c.tensor("input", 0, 3), Err(Error::WrapperError(_))));
    // An unresolved name (native lookup sentinel) is an error.
    assert!(matches!(c.tensor("input", 0x500, -1), Err(Error::WrapperError(_))));
    // A resolvable name caches by its index, like tensor_index.
    let t = c.tensor("input", 0x500, 3).unwrap().handle;
    assert_eq!(t, 0x500);
    let again = c.tensor_index(3, 0x999).unwrap().handle;
    assert_eq!(again, t);
}

#[test]
fn run_model_is_callable() {
    let c = Context::from_ptr(0x200).unwrap();
    c.run_model();
}
