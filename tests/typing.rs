use varlink::raw::{Dir, Kind, ScalarKind, TypeDesc};
use varlink::typing::{Direction, NativeType, ScalarType, VariableType};

const ALL_KINDS: [ScalarKind; 11] = [
    ScalarKind::NoKind,
    ScalarKind::U8,
    ScalarKind::I8,
    ScalarKind::U16,
    ScalarKind::I16,
    ScalarKind::U32,
    ScalarKind::I32,
    ScalarKind::U64,
    ScalarKind::I64,
    ScalarKind::F32,
    ScalarKind::F64,
];

#[test]
fn direction_maps_one_to_one() {
    assert_eq!(Direction::from_raw(Dir::Read), Direction::Read);
    assert_eq!(Direction::from_raw(Dir::Write), Direction::Write);
}

#[test]
fn scalar_kinds_convert() {
    assert_eq!(ScalarType::from_raw(ScalarKind::NoKind), ScalarType::Unknown);
    assert_eq!(ScalarType::from_raw(ScalarKind::U8), ScalarType::Int { width: 1, signed: false });
    assert_eq!(ScalarType::from_raw(ScalarKind::I8), ScalarType::Int { width: 1, signed: true });
    assert_eq!(ScalarType::from_raw(ScalarKind::U16), ScalarType::Int { width: 2, signed: false });
    assert_eq!(ScalarType::from_raw(ScalarKind::I16), ScalarType::Int { width: 2, signed: true });
    assert_eq!(ScalarType::from_raw(ScalarKind::U32), ScalarType::Int { width: 4, signed: false });
    assert_eq!(ScalarType::from_raw(ScalarKind::I32), ScalarType::Int { width: 4, signed: true });
    assert_eq!(ScalarType::from_raw(ScalarKind::U64), ScalarType::Int { width: 8, signed: false });
    assert_eq!(ScalarType::from_raw(ScalarKind::I64), ScalarType::Int { width: 8, signed: true });
    assert_eq!(ScalarType::from_raw(ScalarKind::F32), ScalarType::Float { width: 4 });
    assert_eq!(ScalarType::from_raw(ScalarKind::F64), ScalarType::Float { width: 8 });
}

#[test]
fn every_known_kind_has_a_distinct_identity() {
    let mut seen: Vec<NativeType> = Vec::new();
    for k in ALL_KINDS {
        let id = ScalarType::from_raw(k).type_id();
        if k == ScalarKind::NoKind {
            assert_eq!(id, None);
        } else {
            let id = id.unwrap();
            assert!(!seen.contains(&id));
            seen.push(id);
        }
    }
    assert_eq!(seen.len(), 10);
}

#[test]
fn identities_of_integer_types() {
    let expected = [
        (1u8, false, NativeType::U8),
        (1, true, NativeType::I8),
        (2, false, NativeType::U16),
        (2, true, NativeType::I16),
        (4, false, NativeType::U32),
        (4, true, NativeType::I32),
        (8, false, NativeType::U64),
        (8, true, NativeType::I64),
    ];
    for (width, signed, id) in expected {
        assert_eq!(ScalarType::Int { width, signed }.type_id(), Some(id));
    }
    assert_eq!(ScalarType::Float { width: 4 }.type_id(), Some(NativeType::F32));
    assert_eq!(ScalarType::Float { width: 8 }.type_id(), Some(NativeType::F64));
}

#[test]
fn unsupported_widths_have_no_identity() {
    for width in [0u8, 3, 5, 16, 255] {
        assert_eq!(ScalarType::Int { width, signed: false }.type_id(), None);
        assert_eq!(ScalarType::Int { width, signed: true }.type_id(), None);
    }
    for width in [0u8, 1, 2, 16] {
        assert_eq!(ScalarType::Float { width }.type_id(), None);
    }
    assert_eq!(ScalarType::Unknown.type_id(), None);
}

#[test]
fn scalar_u32_descriptor() {
    let d = TypeDesc { kind: Kind::Scalar, scalar_type: ScalarKind::U32, array_max_len: 0 };
    let t = VariableType::from_raw(d);
    assert_eq!(t, VariableType::Scalar { scal_type: ScalarType::Int { width: 4, signed: false } });
    match t {
        VariableType::Scalar { scal_type } => assert_eq!(scal_type.type_id(), Some(NativeType::U32)),
        _ => panic!("not a scalar"),
    }
}

#[test]
fn array_f64_descriptor() {
    let d = TypeDesc { kind: Kind::Array, scalar_type: ScalarKind::F64, array_max_len: 16 };
    assert_eq!(
        VariableType::from_raw(d),
        VariableType::Array { scal_type: ScalarType::Float { width: 8 }, max_len: 16 }
    );
}

#[test]
fn array_bound_is_copied_verbatim() {
    for n in [0usize, 1, usize::MAX] {
        let d = TypeDesc { kind: Kind::Array, scalar_type: ScalarKind::NoKind, array_max_len: n };
        assert_eq!(
            VariableType::from_raw(d),
            VariableType::Array { scal_type: ScalarType::Unknown, max_len: n }
        );
    }
}

#[test]
fn every_descriptor_converts() {
    for kind in [Kind::Scalar, Kind::Array] {
        for k in ALL_KINDS {
            let d = TypeDesc { kind, scalar_type: k, array_max_len: 3 };
            let t = VariableType::from_raw(d);
            assert_ne!(t, VariableType::Unknown);
        }
    }
}
