use deepviewrt::data::MappedData;
use deepviewrt::error::Error;
use deepviewrt::tensor::{Tensor, TensorType};

fn allocated(ttype: TensorType, shape: [i32; 3], n_dims: i32) -> Tensor {
    let mut t = Tensor::new(0x1000, 0).unwrap();
    t.allocate(ttype, n_dims, &shape, 0, None).unwrap();
    t
}

#[test]
fn mapro_returns_matching_variant_for_every_type() {
    // Fixed-width kinds: a buffer of size * width zero bytes must map to
    // the variant the type selects, holding exactly size() elements.
    let kinds = [
        TensorType::RAW,
        TensorType::I8,
        TensorType::U8,
        TensorType::I16,
        TensorType::U16,
        TensorType::I32,
        TensorType::U32,
        TensorType::I64,
        TensorType::U64,
        TensorType::F16,
        TensorType::F32,
        TensorType::F64,
    ];
    for k in kinds {
        let mut t = allocated(k, [3, 2, 0], 2);
        assert_eq!(t.tensor_type(), k);
        assert_eq!(t.size(), 6);
        let bytes = vec![0u8; 6 * k.elem_width()];
        let view = t.mapro(Some(bytes)).unwrap();
        let data = view.data();
        let matches_kind = match (k, data) {
            (TensorType::RAW, MappedData::RAW(v)) => v.len() == 6,
            (TensorType::I8, MappedData::I8(v)) => v.len() == 6,
            (TensorType::U8, MappedData::U8(v)) => v.len() == 6,
            (TensorType::I16, MappedData::I16(v)) => v.len() == 6,
            (TensorType::U16, MappedData::U16(v)) => v.len() == 6,
            (TensorType::I32, MappedData::I32(v)) => v.len() == 6,
            (TensorType::U32, MappedData::U32(v)) => v.len() == 6,
            (TensorType::I64, MappedData::I64(v)) => v.len() == 6,
            (TensorType::U64, MappedData::U64(v)) => v.len() == 6,
            (TensorType::F16, MappedData::F16(v)) => v.len() == 6,
            (TensorType::F32, MappedData::F32(v)) => v.len() == 6,
            (TensorType::F64, MappedData::F64(v)) => v.len() == 6,
            _ => false,
        };
        assert!(matches_kind);
        assert_eq!(view.data().len(), 6);
    }
}

#[test]
fn mapro_str_decodes_nul_terminated_text() {
    let mut t = allocated(TensorType::STR, [8, 0, 0], 1);
    assert_eq!(t.tensor_type(), TensorType::STR);
    let view = t.mapro(Some(b"hi\0junk".to_vec())).unwrap();
    match view.data() {
        MappedData::STR(s) => assert_eq!(s, "hi"),
        _ => panic!("wrong variant for STR"),
    }
}

#[test]
fn mapro_str_without_terminator_is_error() {
    let mut t = allocated(TensorType::STR, [2, 0, 0], 1);
    let r = t.mapro(Some(b"hi".to_vec()));
    assert!(matches!(r, Err(Error::WrapperError(_))));
}

#[test]
fn mapro_str_invalid_encoding_is_error() {
    let mut t = allocated(TensorType::STR, [3, 0, 0], 1);
    let r = t.mapro(Some(vec![0xff, 0xfe, 0x00]));
    assert!(matches!(r, Err(Error::WrapperError(_))));
}

#[test]
fn mapro_decodes_exact_values() {
    let mut t = allocated(TensorType::I16, [2, 0, 0], 1);
    let view = t.mapro(Some(vec![0x01, 0x00, 0xff, 0xff])).unwrap();
    match view.data() {
        MappedData::I16(v) => assert_eq!(v, &vec![1i16, -1i16]),
        _ => panic!("wrong variant for I16"),
    }
    t.unmap();

    let mut t = allocated(TensorType::U32, [1, 0, 0], 1);
    let view = t.mapro(Some(vec![0x78, 0x56, 0x34, 0x12])).unwrap();
    match view.data() {
        MappedData::U32(v) => assert_eq!(v, &vec![0x12345678u32]),
        _ => panic!("wrong variant for U32"),
    }
    t.unmap();

    let mut t = allocated(TensorType::I8, [2, 0, 0], 1);
    let view = t.mapro(Some(vec![0x80, 0x7f])).unwrap();
    match view.data() {
        MappedData::I8(v) => assert_eq!(v, &vec![-128i8, 127i8]),
        _ => panic!("wrong variant for I8"),
    }
    t.unmap();

    let mut t = allocated(TensorType::I64, [1, 0, 0], 1);
    let view = t
        .mapro(Some(vec![0xfe, 0xff, 0xff, 0xff, 0xff, 0xff, 0xff, 0xff]))
        .unwrap();
    match view.data() {
        MappedData::I64(v) => assert_eq!(v, &vec![-2i64]),
        _ => panic!("wrong variant for I64"),
    }
}

#[test]
fn mapro_float_bits_round_trip() {
    let mut t = allocated(TensorType::F32, [2, 0, 0], 1);
    let mut bytes = Vec::new();
    bytes.extend_from_slice(&1.5f32.to_bits().to_le_bytes());
    bytes.extend_from_slice(&(-0.25f32).to_bits().to_le_bytes());
    let view = t.mapro(Some(bytes)).unwrap();
    match view.data() {
        MappedData::F32(v) => {
            assert_eq!(f32::from_bits(v[0]), 1.5);
            assert_eq!(f32::from_bits(v[1]), -0.25);
        }
        _ => panic!("wrong variant for F32"),
    }
    t.unmap();

    let mut t = allocated(TensorType::F64, [1, 0, 0], 1);
    let view = t.mapro(Some(2.5f64.to_bits().to_le_bytes().to_vec())).unwrap();
    match view.data() {
        MappedData::F64(v) => assert_eq!(f64::from_bits(v[0]), 2.5),
        _ => panic!("wrong variant for F64"),
    }
}

#[test]
fn mapro_rejects_wrong_byte_length() {
    let mut t = allocated(TensorType::U16, [3, 0, 0], 1);
    let r = t.mapro(Some(vec![0u8; 5]));
    assert!(matches!(r, Err(Error::WrapperError(_))));
    // The failed attempt left no mapping outstanding.
    let ok = t.mapro(Some(vec![0u8; 6]));
    assert!(ok.is_ok());
}

#[test]
fn mapro_refused_mapping_is_error() {
    let mut t = allocated(TensorType::U8, [4, 0, 0], 1);
    let r = t.mapro(None);
    assert!(matches!(r, Err(Error::WrapperError(_))));
}

#[test]
fn double_mapping_is_rejected_and_unmap_restores() {
    // A view may be taken, a second one is refused while it is live, and
    // releasing it lets the next mapping succeed again.
    let mut t = allocated(TensorType::U8, [4, 0, 0], 1);
    let bytes = vec![1u8, 2, 3, 4];
    let first = t.mapro(Some(bytes.clone()));
    assert!(first.is_ok());
    let second = t.mapro(Some(bytes.clone()));
    assert!(matches!(second, Err(Error::WrapperError(_))));
    t.unmap();
    let third = t.mapro(Some(bytes));
    assert!(third.is_ok());
}
