use deepviewrt::error::Error;
use deepviewrt::tensor::{Tensor, TensorType};

#[test]
fn new_rejects_null_with_os_error() {
    let r = Tensor::new(0, 12);
    assert!(matches!(r, Err(Error::IoError(12))));
}

#[test]
fn new_success_is_owned_and_unallocated() {
    let t = Tensor::new(0x30, 0).unwrap();
    assert!(t.owned);
    assert_eq!(t.handle, 0x30);
    assert!(!t.allocated);
    assert!(!t.mapped);
    assert_eq!(t.size(), 0);
}

#[test]
fn from_ptr_rejects_null() {
    assert!(matches!(Tensor::from_ptr(0, false), Err(Error::WrapperError(_))));
    let t = Tensor::from_ptr(0x40, false).unwrap();
    assert!(!t.owned);
}

#[test]
fn allocate_records_requested_type_and_shape() {
    let mut t = Tensor::new(0x30, 0).unwrap();
    t.allocate(TensorType::F32, 3, &[2, 3, 4], 0, None).unwrap();
    assert_eq!(t.tensor_type(), TensorType::F32);
    assert_eq!(t.dims(), 3);
    assert_eq!(t.shape(), &vec![2, 3, 4]);
    assert_eq!(t.volume(), 24);
    assert_eq!(t.size(), 24);
    assert!(t.allocated);
}

#[test]
fn allocate_truncates_shape_to_requested_dims() {
    let mut t = Tensor::new(0x30, 0).unwrap();
    t.allocate(TensorType::U8, 2, &[5, 7, 9], 0, None).unwrap();
    assert_eq!(t.shape(), &vec![5, 7]);
    assert_eq!(t.size(), 35);
}

#[test]
fn allocate_failure_is_native_error_and_changes_nothing() {
    let mut t = Tensor::new(0x30, 0).unwrap();
    let r = t.allocate(TensorType::U8, 1, &[4, 0, 0], -5, Some(String::from("out of memory")));
    assert!(matches!(r, Err(Error::NNError(m)) if m == "out of memory"));
    assert!(!t.allocated);
    assert_eq!(t.tensor_type(), TensorType::RAW);
}

#[test]
fn allocate_rejects_bad_shapes() {
    let mut t = Tensor::new(0x30, 0).unwrap();
    assert!(matches!(
        t.allocate(TensorType::U8, 0, &[1, 1, 1], 0, None),
        Err(Error::WrapperError(_))
    ));
    assert!(matches!(
        t.allocate(TensorType::U8, 4, &[1, 1, 1], 0, None),
        Err(Error::WrapperError(_))
    ));
    assert!(matches!(
        t.allocate(TensorType::U8, 1, &[-1, 0, 0], 0, None),
        Err(Error::WrapperError(_))
    ));
    // An element count that cannot be represented is rejected.
    assert!(matches!(
        t.allocate(TensorType::U8, 3, &[i32::MAX, 2, 2], 0, None),
        Err(Error::WrapperError(_))
    ));
    assert!(!t.allocated);
}

#[test]
fn set_tensor_type_applies_native_verdict() {
    let mut t = Tensor::new(0x30, 0).unwrap();
    t.set_tensor_type(TensorType::I16, 0, None).unwrap();
    assert_eq!(t.tensor_type(), TensorType::I16);
    let r = t.set_tensor_type(TensorType::F64, -1, None);
    assert!(matches!(r, Err(Error::Null())));
    assert_eq!(t.tensor_type(), TensorType::I16);
}

#[test]
fn set_scales_accepts_exactly_one_or_axis_length() {
    let mut t = Tensor::new(0x30, 0).unwrap();
    t.set_info(TensorType::I8, 1, vec![6], 6, 6, 3);
    assert_eq!(t.axis(), 3);
    // Length one is always accepted.
    assert!(t.set_scales(&[0x3f800000]).is_ok());
    // Length equal to the axis is accepted.
    assert!(t.set_scales(&[1, 2, 3]).is_ok());
    assert_eq!(t.scales, Some(vec![1, 2, 3]));
    // Every other length is rejected, and the cached scales are kept.
    assert!(matches!(t.set_scales(&[1, 2]), Err(Error::WrapperError(_))));
    assert!(matches!(t.set_scales(&[]), Err(Error::WrapperError(_))));
    assert!(matches!(t.set_scales(&[1, 2, 3, 4]), Err(Error::WrapperError(_))));
    assert_eq!(t.scales, Some(vec![1, 2, 3]));
}

#[test]
fn dequantize_applies_native_verdict() {
    let src = Tensor::new(0x30, 0).unwrap();
    let mut dest = Tensor::new(0x31, 0).unwrap();
    assert!(src.dequantize(&mut dest, 0, None).is_ok());
    let r = src.dequantize(&mut dest, -2, Some(String::from("shape mismatch")));
    assert!(matches!(r, Err(Error::NNError(m)) if m == "shape mismatch"));
}

#[test]
fn zeros_surfaces_native_values() {
    let t = Tensor::new(0x30, 0).unwrap();
    assert_eq!(t.zeros(Some(vec![0, 1, 2])).unwrap(), vec![0, 1, 2]);
    assert!(matches!(t.zeros(None), Err(Error::WrapperError(_))));
}

#[test]
fn tensor_engine_resolves_at_most_once() {
    let mut t = Tensor::new(0x30, 0).unwrap();
    assert!(t.engine(0).is_none());
    let first = t.engine(0x50).unwrap().handle;
    assert_eq!(first, 0x50);
    // Later resolutions return the cached engine, whatever is fetched.
    let second = t.engine(0x60).unwrap();
    assert_eq!(second.handle, 0x50);
    assert!(!second.owned);
}

#[test]
fn set_info_installs_runtime_metadata() {
    let mut t = Tensor::from_ptr(0x40, false).unwrap();
    t.set_info(TensorType::U16, 2, vec![4, 5], 20, 20, 1);
    assert_eq!(t.tensor_type(), TensorType::U16);
    assert_eq!(t.dims(), 2);
    assert_eq!(t.shape(), &vec![4, 5]);
    assert_eq!(t.volume(), 20);
    assert_eq!(t.size(), 20);
    assert_eq!(t.axis(), 1);
    assert!(t.allocated);
}
