//! The semantic type model of variables and its lookup of native type identities.
use vstd::prelude::*;

use crate::raw;

verus! {

/// Which way a variable's value flows.
#[derive(Clone, Copy, Debug, Hash, PartialEq, Eq, Structural)]
pub enum Direction {
    Read,
    Write,
}

impl Direction {
    /// The direction that a descriptor's tag stands for.
    pub open spec fn of_raw(raw_dir: raw::Dir) -> Direction {
        match raw_dir {
            raw::Dir::Read => Direction::Read,
            raw::Dir::Write => Direction::Write,
        }
    }

    pub fn from_raw(raw_dir: raw::Dir) -> (r: Direction)
        ensures
            r == Direction::of_raw(raw_dir),
    {
        match raw_dir {
            raw::Dir::Read => Direction::Read,
            raw::Dir::Write => Direction::Write,
        }
    }
}

/// A native fixed-width numeric type of this process, as a comparable identity.
#[derive(Clone, Copy, Debug, Hash, PartialEq, Eq, Structural)]
pub enum NativeType {
    U8,
    I8,
    U16,
    I16,
    U32,
    I32,
    U64,
    I64,
    F32,
    F64,
}

/// Type of scalars.
#[derive(Clone, Copy, Debug, Hash, PartialEq, Eq, Structural)]
pub enum ScalarType {
    /// Integer type of `width` bytes (supported: 1, 2, 4, 8), signed or not.
    Int { width: u8, signed: bool },
    /// Floating-point type of `width` bytes (supported: 4 and 8).
    Float { width: u8 },
    /// Unknown type.
    Unknown,
}

impl ScalarType {
    /// The scalar type that a descriptor's scalar kind stands for.
    pub open spec fn of_raw(k: raw::ScalarKind) -> ScalarType {
        match k {
            raw::ScalarKind::NoKind => ScalarType::Unknown,
            raw::ScalarKind::U8 => ScalarType::Int { width: 1, signed: false },
            raw::ScalarKind::I8 => ScalarType::Int { width: 1, signed: true },
            raw::ScalarKind::U16 => ScalarType::Int { width: 2, signed: false },
            raw::ScalarKind::I16 => ScalarType::Int { width: 2, signed: true },
            raw::ScalarKind::U32 => ScalarType::Int { width: 4, signed: false },
            raw::ScalarKind::I32 => ScalarType::Int { width: 4, signed: true },
            raw::ScalarKind::U64 => ScalarType::Int { width: 8, signed: false },
            raw::ScalarKind::I64 => ScalarType::Int { width: 8, signed: true },
            raw::ScalarKind::F32 => ScalarType::Float { width: 4 },
            raw::ScalarKind::F64 => ScalarType::Float { width: 8 },
        }
    }

    /// A width and signedness for which a native type exists.
    pub open spec fn is_supported(self) -> bool {
        match self {
            ScalarType::Int { width, signed } => width == 1 || width == 2 || width == 4 || width == 8,
            ScalarType::Float { width } => width == 4 || width == 8,
            ScalarType::Unknown => false,
        }
    }

    /// The native type of a supported scalar type; `None` for all others.
    pub open spec fn native(self) -> Option<NativeType> {
        match self {
            ScalarType::Int { width, signed } => {
                if width == 1 {
                    Some(if signed { NativeType::I8 } else { NativeType::U8 })
                } else if width == 2 {
                    Some(if signed { NativeType::I16 } else { NativeType::U16 })
                } else if width == 4 {
                    Some(if signed { NativeType::I32 } else { NativeType::U32 })
                } else if width == 8 {
                    Some(if signed { NativeType::I64 } else { NativeType::U64 })
                } else {
                    None
                }
            },
            ScalarType::Float { width } => {
                if width == 4 {
                    Some(NativeType::F32)
                } else if width == 8 {
                    Some(NativeType::F64)
                } else {
                    None
                }
            },
            ScalarType::Unknown => None,
        }
    }

    /// Converts a descriptor's scalar kind; every kind but `NoKind` gives a supported type.
    pub fn from_raw(raw_scal_type: raw::ScalarKind) -> (r: ScalarType)
        ensures
            r == ScalarType::of_raw(raw_scal_type),
            r.is_supported() <==> raw_scal_type != raw::ScalarKind::NoKind,
            r is Unknown <==> raw_scal_type == raw::ScalarKind::NoKind,
    {
        match raw_scal_type {
            raw::ScalarKind::NoKind => ScalarType::Unknown,
            raw::ScalarKind::U8 => ScalarType::Int { width: 1, signed: false },
            raw::ScalarKind::I8 => ScalarType::Int { width: 1, signed: true },
            raw::ScalarKind::U16 => ScalarType::Int { width: 2, signed: false },
            raw::ScalarKind::I16 => ScalarType::Int { width: 2, signed: true },
            raw::ScalarKind::U32 => ScalarType::Int { width: 4, signed: false },
            raw::ScalarKind::I32 => ScalarType::Int { width: 4, signed: true },
            raw::ScalarKind::U64 => ScalarType::Int { width: 8, signed: false },
            raw::ScalarKind::I64 => ScalarType::Int { width: 8, signed: true },
            raw::ScalarKind::F32 => ScalarType::Float { width: 4 },
            raw::ScalarKind::F64 => ScalarType::Float { width: 8 },
        }
    }

    /// The native type identity of this scalar type, or `None` where it has none.
    pub fn type_id(self) -> (r: Option<NativeType>)
        ensures
            r == self.native(),
            r is Some <==> self.is_supported(),
    {
        match self {
            ScalarType::Int { width, signed } => match (width, signed) {
                (1, false) => Some(NativeType::U8),
                (1, true) => Some(NativeType::I8),
                (2, false) => Some(NativeType::U16),
                (2, true) => Some(NativeType::I16),
                (4, false) => Some(NativeType::U32),
                (4, true) => Some(NativeType::I32),
                (8, false) => Some(NativeType::U64),
                (8, true) => Some(NativeType::I64),
                _ => None,
            },
            ScalarType::Float { width } => match width {
                4 => Some(NativeType::F32),
                8 => Some(NativeType::F64),
                _ => None,
            },
            ScalarType::Unknown => None,
        }
    }
}

/// Each native type identity belongs to exactly one scalar type: two scalar types
/// that have the same identity are equal. Every supported width and signedness has
/// an identity, and no other scalar type has one.
pub proof fn lemma_type_id_distinct(a: ScalarType, b: ScalarType)
    ensures
        a.native() is Some <==> a.is_supported(),
        a.native() is Some && a.native() == b.native() ==> a == b,
{
}

/// Every descriptor converts, and a scalar kind other than the missing one converts
/// to a type that has a native identity.
pub proof fn lemma_from_raw_total(t: raw::TypeDesc)
    ensures
        VariableType::of_raw(t) !is Unknown,
        t.scalar_type != raw::ScalarKind::NoKind ==> ScalarType::of_raw(t.scalar_type).native() is Some,
        t.scalar_type == raw::ScalarKind::NoKind ==> ScalarType::of_raw(t.scalar_type) is Unknown,
{
}

/// Type of a variable.
#[derive(Clone, Copy, Debug, Hash, PartialEq, Eq, Structural)]
pub enum VariableType {
    Scalar { scal_type: ScalarType },
    Array { scal_type: ScalarType, max_len: usize },
    Unknown,
}

impl VariableType {
    /// The variable type that a descriptor stands for.
    pub open spec fn of_raw(t: raw::TypeDesc) -> VariableType {
        match t.kind {
            raw::Kind::Scalar => VariableType::Scalar { scal_type: ScalarType::of_raw(t.scalar_type) },
            raw::Kind::Array => VariableType::Array {
                scal_type: ScalarType::of_raw(t.scalar_type),
                max_len: t.array_max_len,
            },
        }
    }

    /// Converts a descriptor: its shape, its scalar kind and, for arrays, its bound as given.
    pub fn from_raw(raw_type: raw::TypeDesc) -> (r: VariableType)
        ensures
            r == VariableType::of_raw(raw_type),
    {
        match raw_type.kind {
            raw::Kind::Scalar => VariableType::Scalar {
                scal_type: ScalarType::from_raw(raw_type.scalar_type),
            },
            raw::Kind::Array => VariableType::Array {
                scal_type: ScalarType::from_raw(raw_type.scalar_type),
                max_len: raw_type.array_max_len,
            },
        }
    }
}

} // verus!
