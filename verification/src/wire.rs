//! Specification of the jeff binary wire format.
//!
//! `enc_*` gives the encoding of each model value as a byte sequence; the
//! `parse_*` functions are its inverse, reading a value and the position past
//! it from a byte sequence. All multi-byte integers are little-endian; every
//! list is a 32-bit count followed by its elements; a module starts with a
//! four-byte magic and the schema version.
//!
//! The executable decoder ([`crate::decode`]) and encoder
//! ([`crate::encode`]) are verified against these functions, and
//! [`crate::laws`] proves that parsing inverts encoding.

use vstd::prelude::*;

use crate::model::ControlFlowModel;
use crate::model::DeclarationModel;
use crate::model::DefinitionModel;
use crate::model::FloatArrayOpModel;
use crate::model::FunctionModel;
use crate::model::GateModel;
use crate::model::GateTypeModel;
use crate::model::IntArrayOpModel;
use crate::model::MetaModel;
use crate::model::ModuleModel;
use crate::model::OpModel;
use crate::model::OpTypeModel;
use crate::model::QubitOpModel;
use crate::model::RegionModel;
use crate::model::ValueModel;
use crate::reader::optype::qubit::Pauli;
use crate::reader::optype::qubit::WellKnownGate;
use crate::reader::optype::qubit::QubitRegisterOp;
use crate::reader::optype::FloatOp;
use crate::reader::optype::FuncOp;
use crate::reader::optype::IntOp;
use crate::types::FloatPrecision;
use crate::types::Type;

verus! {

// ---------------------------------------------------------------------------
// Primitives.
// ---------------------------------------------------------------------------

pub open spec fn enc_u8(v: u8) -> Seq<u8> {
    seq![v]
}

pub open spec fn enc_bool(v: bool) -> Seq<u8> {
    seq![
        if v {
            1u8
        } else {
            0u8
        },
    ]
}

pub open spec fn enc_u16(v: u16) -> Seq<u8> {
    seq![(v & 0xff) as u8, ((v >> 8) & 0xff) as u8]
}

pub open spec fn enc_u32(v: u32) -> Seq<u8> {
    seq![
        (v & 0xff) as u8,
        ((v >> 8) & 0xff) as u8,
        ((v >> 16) & 0xff) as u8,
        ((v >> 24) & 0xff) as u8,
    ]
}

pub open spec fn enc_u64(v: u64) -> Seq<u8> {
    seq![
        (v & 0xff) as u8,
        ((v >> 8) & 0xff) as u8,
        ((v >> 16) & 0xff) as u8,
        ((v >> 24) & 0xff) as u8,
        ((v >> 32) & 0xff) as u8,
        ((v >> 40) & 0xff) as u8,
        ((v >> 48) & 0xff) as u8,
        ((v >> 56) & 0xff) as u8,
    ]
}

pub open spec fn parse_u8(b: Seq<u8>, pos: int) -> Option<(u8, int)> {
    if 0 <= pos && pos + 1 <= b.len() {
        Some((b[pos], pos + 1))
    } else {
        None
    }
}

pub open spec fn parse_bool(b: Seq<u8>, pos: int) -> Option<(bool, int)> {
    match parse_u8(b, pos) {
        None => None,
        Some((v, p)) => if v == 0 {
            Some((false, p))
        } else if v == 1 {
            Some((true, p))
        } else {
            None
        },
    }
}

pub open spec fn parse_u16(b: Seq<u8>, pos: int) -> Option<(u16, int)> {
    if 0 <= pos && pos + 2 <= b.len() {
        Some(((b[pos] as u16) | ((b[pos + 1] as u16) << 8), pos + 2))
    } else {
        None
    }
}

pub open spec fn parse_u32(b: Seq<u8>, pos: int) -> Option<(u32, int)> {
    if 0 <= pos && pos + 4 <= b.len() {
        Some(
            (
                (b[pos] as u32) | ((b[pos + 1] as u32) << 8) | ((b[pos + 2] as u32) << 16)
                    | ((b[pos + 3] as u32) << 24),
                pos + 4,
            ),
        )
    } else {
        None
    }
}

pub open spec fn parse_u64(b: Seq<u8>, pos: int) -> Option<(u64, int)> {
    if 0 <= pos && pos + 8 <= b.len() {
        Some(
            (
                (b[pos] as u64) | ((b[pos + 1] as u64) << 8) | ((b[pos + 2] as u64) << 16)
                    | ((b[pos + 3] as u64) << 24) | ((b[pos + 4] as u64) << 32)
                    | ((b[pos + 5] as u64) << 40) | ((b[pos + 6] as u64) << 48)
                    | ((b[pos + 7] as u64) << 56),
                pos + 8,
            ),
        )
    } else {
        None
    }
}

/// A byte string: a 32-bit length followed by the raw bytes.
pub open spec fn enc_bytes(s: Seq<u8>) -> Seq<u8> {
    enc_u32(s.len() as u32) + s
}

pub open spec fn parse_bytes(b: Seq<u8>, pos: int) -> Option<(Seq<u8>, int)> {
    match parse_u32(b, pos) {
        None => None,
        Some((n, p)) => if p + n <= b.len() {
            Some((b.subrange(p, p + n), p + n))
        } else {
            None
        },
    }
}

// ---------------------------------------------------------------------------
// Lists: a 32-bit count followed by the encoded elements.
// ---------------------------------------------------------------------------

/// The concatenation of the encodings of the elements of `items`.
pub open spec fn concat_map<T>(items: Seq<T>, f: spec_fn(T) -> Seq<u8>) -> Seq<u8>
    decreases items.len(),
{
    if items.len() == 0 {
        Seq::empty()
    } else {
        f(items[0]) + concat_map(items.drop_first(), f)
    }
}

pub open spec fn enc_list<T>(items: Seq<T>, f: spec_fn(T) -> Seq<u8>) -> Seq<u8> {
    enc_u32(items.len() as u32) + concat_map(items, f)
}

/// Parses exactly `n` elements with `f`.
pub open spec fn parse_n<T>(
    b: Seq<u8>,
    pos: int,
    n: nat,
    f: spec_fn(Seq<u8>, int) -> Option<(T, int)>,
) -> Option<(Seq<T>, int)>
    decreases n,
{
    if n == 0 {
        Some((Seq::empty(), pos))
    } else {
        match f(b, pos) {
            None => None,
            Some((v, p2)) => match parse_n(b, p2, (n - 1) as nat, f) {
                None => None,
                Some((rest, p3)) => Some((seq![v] + rest, p3)),
            },
        }
    }
}

pub open spec fn parse_list<T>(
    b: Seq<u8>,
    pos: int,
    f: spec_fn(Seq<u8>, int) -> Option<(T, int)>,
) -> Option<(Seq<T>, int)> {
    match parse_u32(b, pos) {
        None => None,
        Some((n, p)) => parse_n(b, p, n as nat, f),
    }
}

// ---------------------------------------------------------------------------
// Element encoders and parsers as named function values, so that list
// encodings are stated over one and the same closure everywhere.
// ---------------------------------------------------------------------------

pub open spec fn enc_u8_fn() -> spec_fn(u8) -> Seq<u8> {
    |v: u8| enc_u8(v)
}

pub open spec fn parse_u8_fn() -> spec_fn(Seq<u8>, int) -> Option<(u8, int)> {
    |b: Seq<u8>, pos: int| parse_u8(b, pos)
}

pub open spec fn enc_bool_fn() -> spec_fn(bool) -> Seq<u8> {
    |v: bool| enc_bool(v)
}

pub open spec fn parse_bool_fn() -> spec_fn(Seq<u8>, int) -> Option<(bool, int)> {
    |b: Seq<u8>, pos: int| parse_bool(b, pos)
}

pub open spec fn enc_u16_fn() -> spec_fn(u16) -> Seq<u8> {
    |v: u16| enc_u16(v)
}

pub open spec fn parse_u16_fn() -> spec_fn(Seq<u8>, int) -> Option<(u16, int)> {
    |b: Seq<u8>, pos: int| parse_u16(b, pos)
}

pub open spec fn enc_u32_fn() -> spec_fn(u32) -> Seq<u8> {
    |v: u32| enc_u32(v)
}

pub open spec fn parse_u32_fn() -> spec_fn(Seq<u8>, int) -> Option<(u32, int)> {
    |b: Seq<u8>, pos: int| parse_u32(b, pos)
}

pub open spec fn enc_u64_fn() -> spec_fn(u64) -> Seq<u8> {
    |v: u64| enc_u64(v)
}

pub open spec fn parse_u64_fn() -> spec_fn(Seq<u8>, int) -> Option<(u64, int)> {
    |b: Seq<u8>, pos: int| parse_u64(b, pos)
}

pub open spec fn enc_bytes_fn() -> spec_fn(Seq<u8>) -> Seq<u8> {
    |s: Seq<u8>| enc_bytes(s)
}

pub open spec fn parse_bytes_fn() -> spec_fn(Seq<u8>, int) -> Option<(Seq<u8>, int)> {
    |b: Seq<u8>, pos: int| parse_bytes(b, pos)
}

pub open spec fn enc_pauli_fn() -> spec_fn(Pauli) -> Seq<u8> {
    |p: Pauli| enc_pauli(p)
}

pub open spec fn parse_pauli_fn() -> spec_fn(Seq<u8>, int) -> Option<(Pauli, int)> {
    |b: Seq<u8>, pos: int| parse_pauli(b, pos)
}

pub open spec fn enc_meta_fn() -> spec_fn(MetaModel) -> Seq<u8> {
    |m: MetaModel| enc_meta(m)
}

pub open spec fn parse_meta_fn() -> spec_fn(Seq<u8>, int) -> Option<(MetaModel, int)> {
    |b: Seq<u8>, pos: int| parse_meta(b, pos)
}

pub open spec fn enc_value_fn() -> spec_fn(ValueModel) -> Seq<u8> {
    |v: ValueModel| enc_value(v)
}

pub open spec fn parse_value_fn() -> spec_fn(Seq<u8>, int) -> Option<(ValueModel, int)> {
    |b: Seq<u8>, pos: int| parse_value(b, pos)
}

pub open spec fn enc_op_fn() -> spec_fn(OpModel) -> Seq<u8> {
    |o: OpModel| enc_op(o)
}

pub open spec fn parse_op_fn() -> spec_fn(Seq<u8>, int) -> Option<(OpModel, int)> {
    |b: Seq<u8>, pos: int| parse_op(b, pos)
}

pub open spec fn enc_region_fn() -> spec_fn(RegionModel) -> Seq<u8> {
    |r: RegionModel| enc_region(r)
}

pub open spec fn parse_region_fn() -> spec_fn(Seq<u8>, int) -> Option<(RegionModel, int)> {
    |b: Seq<u8>, pos: int| parse_region(b, pos)
}

pub open spec fn enc_function_fn() -> spec_fn(FunctionModel) -> Seq<u8> {
    |f: FunctionModel| enc_function(f)
}

pub open spec fn parse_function_fn() -> spec_fn(Seq<u8>, int) -> Option<(FunctionModel, int)> {
    |b: Seq<u8>, pos: int| parse_function(b, pos)
}

// ---------------------------------------------------------------------------
// Enumerations with a fixed one-byte code.
// ---------------------------------------------------------------------------

pub open spec fn enc_pauli(p: Pauli) -> Seq<u8> {
    match p {
        Pauli::X => seq![0u8],
        Pauli::Y => seq![1u8],
        Pauli::Z => seq![2u8],
        Pauli::I => seq![3u8],
    }
}

pub open spec fn parse_pauli(b: Seq<u8>, pos: int) -> Option<(Pauli, int)> {
    match parse_u8(b, pos) {
        None => None,
        Some((v, p)) => if v == 0 {
            Some((Pauli::X, p))
        } else if v == 1 {
            Some((Pauli::Y, p))
        } else if v == 2 {
            Some((Pauli::Z, p))
        } else if v == 3 {
            Some((Pauli::I, p))
        } else {
            None
        },
    }
}

pub open spec fn well_known_code(g: WellKnownGate) -> u8 {
    match g {
        WellKnownGate::GPhase => 0,
        WellKnownGate::I => 1,
        WellKnownGate::X => 2,
        WellKnownGate::Y => 3,
        WellKnownGate::Z => 4,
        WellKnownGate::S => 5,
        WellKnownGate::T => 6,
        WellKnownGate::R1 => 7,
        WellKnownGate::Rx => 8,
        WellKnownGate::Ry => 9,
        WellKnownGate::Rz => 10,
        WellKnownGate::H => 11,
        WellKnownGate::U => 12,
        WellKnownGate::Swap => 13,
    }
}

pub open spec fn well_known_of_code(v: u8) -> Option<WellKnownGate> {
    if v == 0 {
        Some(WellKnownGate::GPhase)
    } else if v == 1 {
        Some(WellKnownGate::I)
    } else if v == 2 {
        Some(WellKnownGate::X)
    } else if v == 3 {
        Some(WellKnownGate::Y)
    } else if v == 4 {
        Some(WellKnownGate::Z)
    } else if v == 5 {
        Some(WellKnownGate::S)
    } else if v == 6 {
        Some(WellKnownGate::T)
    } else if v == 7 {
        Some(WellKnownGate::R1)
    } else if v == 8 {
        Some(WellKnownGate::Rx)
    } else if v == 9 {
        Some(WellKnownGate::Ry)
    } else if v == 10 {
        Some(WellKnownGate::Rz)
    } else if v == 11 {
        Some(WellKnownGate::H)
    } else if v == 12 {
        Some(WellKnownGate::U)
    } else if v == 13 {
        Some(WellKnownGate::Swap)
    } else {
        None
    }
}

pub open spec fn parse_well_known(b: Seq<u8>, pos: int) -> Option<(WellKnownGate, int)> {
    match parse_u8(b, pos) {
        None => None,
        Some((v, p)) => match well_known_of_code(v) {
            None => None,
            Some(g) => Some((g, p)),
        },
    }
}

pub open spec fn qureg_code(q: QubitRegisterOp) -> u8 {
    match q {
        QubitRegisterOp::Alloc => 0,
        QubitRegisterOp::Free => 1,
        QubitRegisterOp::FreeZero => 2,
        QubitRegisterOp::ExtractIndex => 3,
        QubitRegisterOp::InsertIndex => 4,
        QubitRegisterOp::ExtractSlice => 5,
        QubitRegisterOp::InsertSlice => 6,
        QubitRegisterOp::Length => 7,
        QubitRegisterOp::Split => 8,
        QubitRegisterOp::Join => 9,
        QubitRegisterOp::Create => 10,
    }
}

pub open spec fn qureg_of_code(v: u8) -> Option<QubitRegisterOp> {
    if v == 0 {
        Some(QubitRegisterOp::Alloc)
    } else if v == 1 {
        Some(QubitRegisterOp::Free)
    } else if v == 2 {
        Some(QubitRegisterOp::FreeZero)
    } else if v == 3 {
        Some(QubitRegisterOp::ExtractIndex)
    } else if v == 4 {
        Some(QubitRegisterOp::InsertIndex)
    } else if v == 5 {
        Some(QubitRegisterOp::ExtractSlice)
    } else if v == 6 {
        Some(QubitRegisterOp::InsertSlice)
    } else if v == 7 {
        Some(QubitRegisterOp::Length)
    } else if v == 8 {
        Some(QubitRegisterOp::Split)
    } else if v == 9 {
        Some(QubitRegisterOp::Join)
    } else if v == 10 {
        Some(QubitRegisterOp::Create)
    } else {
        None
    }
}

pub open spec fn parse_qureg_op(b: Seq<u8>, pos: int) -> Option<(QubitRegisterOp, int)> {
    match parse_u8(b, pos) {
        None => None,
        Some((v, p)) => match qureg_of_code(v) {
            None => None,
            Some(q) => Some((q, p)),
        },
    }
}

pub open spec fn prec_code(p: FloatPrecision) -> u8 {
    match p {
        FloatPrecision::Float32 => 0,
        FloatPrecision::Float64 => 1,
    }
}

pub open spec fn parse_prec(b: Seq<u8>, pos: int) -> Option<(FloatPrecision, int)> {
    match parse_u8(b, pos) {
        None => None,
        Some((v, p)) => if v == 0 {
            Some((FloatPrecision::Float32, p))
        } else if v == 1 {
            Some((FloatPrecision::Float64, p))
        } else {
            None
        },
    }
}

// ---------------------------------------------------------------------------
// Types, metadata and values.
// ---------------------------------------------------------------------------

pub open spec fn enc_type(t: Type) -> Seq<u8> {
    match t {
        Type::Qubit => seq![0u8],
        Type::QubitRegister => seq![1u8],
        Type::Int { bits } => seq![2u8, bits],
        Type::IntArray { bits } => seq![3u8, bits],
        Type::Float { precision } => seq![4u8] + enc_u8(prec_code(precision)),
        Type::FloatArray { precision } => seq![5u8] + enc_u8(prec_code(precision)),
    }
}

pub open spec fn parse_type(b: Seq<u8>, pos: int) -> Option<(Type, int)> {
    match parse_u8(b, pos) {
        None => None,
        Some((tag, p)) => if tag == 0 {
            Some((Type::Qubit, p))
        } else if tag == 1 {
            Some((Type::QubitRegister, p))
        } else if tag == 2 {
            match parse_u8(b, p) {
                None => None,
                Some((bits, p2)) => Some((Type::Int { bits }, p2)),
            }
        } else if tag == 3 {
            match parse_u8(b, p) {
                None => None,
                Some((bits, p2)) => Some((Type::IntArray { bits }, p2)),
            }
        } else if tag == 4 {
            match parse_prec(b, p) {
                None => None,
                Some((precision, p2)) => Some((Type::Float { precision }, p2)),
            }
        } else if tag == 5 {
            match parse_prec(b, p) {
                None => None,
                Some((precision, p2)) => Some((Type::FloatArray { precision }, p2)),
            }
        } else {
            None
        },
    }
}

pub open spec fn enc_meta(m: MetaModel) -> Seq<u8> {
    enc_u16(m.name) + enc_bytes(m.value)
}

pub open spec fn parse_meta(b: Seq<u8>, pos: int) -> Option<(MetaModel, int)> {
    match parse_u16(b, pos) {
        None => None,
        Some((name, p)) => match parse_bytes(b, p) {
            None => None,
            Some((value, p2)) => Some((MetaModel { name, value }, p2)),
        },
    }
}

pub open spec fn enc_metas(s: Seq<MetaModel>) -> Seq<u8> {
    enc_list(s, enc_meta_fn())
}

pub open spec fn parse_metas(b: Seq<u8>, pos: int) -> Option<(Seq<MetaModel>, int)> {
    parse_list(b, pos, parse_meta_fn())
}

pub open spec fn enc_value(v: ValueModel) -> Seq<u8> {
    enc_type(v.ty) + enc_metas(v.metadata)
}

pub open spec fn parse_value(b: Seq<u8>, pos: int) -> Option<(ValueModel, int)> {
    match parse_type(b, pos) {
        None => None,
        Some((ty, p)) => match parse_metas(b, p) {
            None => None,
            Some((metadata, p2)) => Some((ValueModel { ty, metadata }, p2)),
        },
    }
}

// ---------------------------------------------------------------------------
// Operation types.
// ---------------------------------------------------------------------------

pub open spec fn enc_gate_type(g: GateTypeModel) -> Seq<u8> {
    match g {
        GateTypeModel::WellKnown(wk) => seq![0u8] + enc_u8(well_known_code(wk)),
        GateTypeModel::Custom { name, num_qubits, num_params } => seq![1u8] + enc_u16(name) + seq![
            num_qubits,
            num_params,
        ],
        GateTypeModel::PauliProdRotation { paulis } => seq![2u8] + enc_list(paulis, enc_pauli_fn()),
    }
}

pub open spec fn parse_gate_type(b: Seq<u8>, pos: int) -> Option<(GateTypeModel, int)> {
    match parse_u8(b, pos) {
        None => None,
        Some((tag, p)) => if tag == 0 {
            match parse_well_known(b, p) {
                None => None,
                Some((wk, p2)) => Some((GateTypeModel::WellKnown(wk), p2)),
            }
        } else if tag == 1 {
            match parse_u16(b, p) {
                None => None,
                Some((name, p2)) => match parse_u8(b, p2) {
                    None => None,
                    Some((num_qubits, p3)) => match parse_u8(b, p3) {
                        None => None,
                        Some((num_params, p4)) => Some(
                            (GateTypeModel::Custom { name, num_qubits, num_params }, p4),
                        ),
                    },
                },
            }
        } else if tag == 2 {
            match parse_list(b, p, parse_pauli_fn()) {
                None => None,
                Some((paulis, p2)) => Some((GateTypeModel::PauliProdRotation { paulis }, p2)),
            }
        } else {
            None
        },
    }
}

pub open spec fn enc_gate(g: GateModel) -> Seq<u8> {
    seq![g.control_qubits] + enc_bool(g.adjoint) + seq![g.power] + enc_gate_type(g.gate_type)
}

pub open spec fn parse_gate(b: Seq<u8>, pos: int) -> Option<(GateModel, int)> {
    match parse_u8(b, pos) {
        None => None,
        Some((control_qubits, p)) => match parse_bool(b, p) {
            None => None,
            Some((adjoint, p2)) => match parse_u8(b, p2) {
                None => None,
                Some((power, p3)) => match parse_gate_type(b, p3) {
                    None => None,
                    Some((gate_type, p4)) => Some(
                        (GateModel { gate_type, control_qubits, adjoint, power }, p4),
                    ),
                },
            },
        },
    }
}

pub open spec fn enc_qubit_op(q: QubitOpModel) -> Seq<u8> {
    match q {
        QubitOpModel::Alloc => seq![0u8],
        QubitOpModel::Free => seq![1u8],
        QubitOpModel::FreeZero => seq![2u8],
        QubitOpModel::Measure => seq![3u8],
        QubitOpModel::MeasureNd => seq![4u8],
        QubitOpModel::Reset => seq![5u8],
        QubitOpModel::Gate(g) => seq![6u8] + enc_gate(g),
    }
}

pub open spec fn parse_qubit_op(b: Seq<u8>, pos: int) -> Option<(QubitOpModel, int)> {
    match parse_u8(b, pos) {
        None => None,
        Some((tag, p)) => if tag == 0 {
            Some((QubitOpModel::Alloc, p))
        } else if tag == 1 {
            Some((QubitOpModel::Free, p))
        } else if tag == 2 {
            Some((QubitOpModel::FreeZero, p))
        } else if tag == 3 {
            Some((QubitOpModel::Measure, p))
        } else if tag == 4 {
            Some((QubitOpModel::MeasureNd, p))
        } else if tag == 5 {
            Some((QubitOpModel::Reset, p))
        } else if tag == 6 {
            match parse_gate(b, p) {
                None => None,
                Some((g, p2)) => Some((QubitOpModel::Gate(g), p2)),
            }
        } else {
            None
        },
    }
}

pub open spec fn enc_int_op(o: IntOp) -> Seq<u8> {
    match o {
        IntOp::Const1(v) => seq![0u8] + enc_bool(v),
        IntOp::Const8(v) => seq![1u8, v],
        IntOp::Const16(v) => seq![2u8] + enc_u16(v),
        IntOp::Const32(v) => seq![3u8] + enc_u32(v),
        IntOp::Const64(v) => seq![4u8] + enc_u64(v),
        IntOp::Add => seq![5u8],
        IntOp::Sub => seq![6u8],
        IntOp::Mul => seq![7u8],
        IntOp::DivS => seq![8u8],
        IntOp::DivU => seq![9u8],
        IntOp::Pow => seq![10u8],
        IntOp::And => seq![11u8],
        IntOp::Or => seq![12u8],
        IntOp::Xor => seq![13u8],
        IntOp::Not => seq![14u8],
        IntOp::MinS => seq![15u8],
        IntOp::MinU => seq![16u8],
        IntOp::MaxS => seq![17u8],
        IntOp::MaxU => seq![18u8],
        IntOp::Eq => seq![19u8],
        IntOp::LtS => seq![20u8],
        IntOp::LteS => seq![21u8],
        IntOp::LtU => seq![22u8],
        IntOp::LteU => seq![23u8],
        IntOp::Abs => seq![24u8],
        IntOp::RemS => seq![25u8],
        IntOp::RemU => seq![26u8],
        IntOp::Shl => seq![27u8],
        IntOp::Shr => seq![28u8],
    }
}

pub open spec fn int_op_of_tag(tag: u8) -> Option<IntOp> {
    if tag == 5 {
        Some(IntOp::Add)
    } else if tag == 6 {
        Some(IntOp::Sub)
    } else if tag == 7 {
        Some(IntOp::Mul)
    } else if tag == 8 {
        Some(IntOp::DivS)
    } else if tag == 9 {
        Some(IntOp::DivU)
    } else if tag == 10 {
        Some(IntOp::Pow)
    } else if tag == 11 {
        Some(IntOp::And)
    } else if tag == 12 {
        Some(IntOp::Or)
    } else if tag == 13 {
        Some(IntOp::Xor)
    } else if tag == 14 {
        Some(IntOp::Not)
    } else if tag == 15 {
        Some(IntOp::MinS)
    } else if tag == 16 {
        Some(IntOp::MinU)
    } else if tag == 17 {
        Some(IntOp::MaxS)
    } else if tag == 18 {
        Some(IntOp::MaxU)
    } else if tag == 19 {
        Some(IntOp::Eq)
    } else if tag == 20 {
        Some(IntOp::LtS)
    } else if tag == 21 {
        Some(IntOp::LteS)
    } else if tag == 22 {
        Some(IntOp::LtU)
    } else if tag == 23 {
        Some(IntOp::LteU)
    } else if tag == 24 {
        Some(IntOp::Abs)
    } else if tag == 25 {
        Some(IntOp::RemS)
    } else if tag == 26 {
        Some(IntOp::RemU)
    } else if tag == 27 {
        Some(IntOp::Shl)
    } else if tag == 28 {
        Some(IntOp::Shr)
    } else {
        None
    }
}

pub open spec fn parse_int_op(b: Seq<u8>, pos: int) -> Option<(IntOp, int)> {
    match parse_u8(b, pos) {
        None => None,
        Some((tag, p)) => if tag == 0 {
            match parse_bool(b, p) {
                None => None,
                Some((v, p2)) => Some((IntOp::Const1(v), p2)),
            }
        } else if tag == 1 {
            match parse_u8(b, p) {
                None => None,
                Some((v, p2)) => Some((IntOp::Const8(v), p2)),
            }
        } else if tag == 2 {
            match parse_u16(b, p) {
                None => None,
                Some((v, p2)) => Some((IntOp::Const16(v), p2)),
            }
        } else if tag == 3 {
            match parse_u32(b, p) {
                None => None,
                Some((v, p2)) => Some((IntOp::Const32(v), p2)),
            }
        } else if tag == 4 {
            match parse_u64(b, p) {
                None => None,
                Some((v, p2)) => Some((IntOp::Const64(v), p2)),
            }
        } else {
            match int_op_of_tag(tag) {
                None => None,
                Some(o) => Some((o, p)),
            }
        },
    }
}

pub open spec fn enc_int_array_op(o: IntArrayOpModel) -> Seq<u8> {
    match o {
        IntArrayOpModel::ConstArray1(v) => seq![0u8] + enc_list(v, enc_bool_fn()),
        IntArrayOpModel::ConstArray8(v) => seq![1u8] + enc_list(v, enc_u8_fn()),
        IntArrayOpModel::ConstArray16(v) => seq![2u8] + enc_list(v, enc_u16_fn()),
        IntArrayOpModel::ConstArray32(v) => seq![3u8] + enc_list(v, enc_u32_fn()),
        IntArrayOpModel::ConstArray64(v) => seq![4u8] + enc_list(v, enc_u64_fn()),
        IntArrayOpModel::Zero { bits } => seq![5u8, bits],
        IntArrayOpModel::GetIndex => seq![6u8],
        IntArrayOpModel::SetIndex => seq![7u8],
        IntArrayOpModel::Length => seq![8u8],
        IntArrayOpModel::Create => seq![9u8],
    }
}

pub open spec fn parse_int_array_op(b: Seq<u8>, pos: int) -> Option<(IntArrayOpModel, int)> {
    match parse_u8(b, pos) {
        None => None,
        Some((tag, p)) => if tag == 0 {
            match parse_list(b, p, parse_bool_fn()) {
                None => None,
                Some((v, p2)) => Some((IntArrayOpModel::ConstArray1(v), p2)),
            }
        } else if tag == 1 {
            match parse_list(b, p, parse_u8_fn()) {
                None => None,
                Some((v, p2)) => Some((IntArrayOpModel::ConstArray8(v), p2)),
            }
        } else if tag == 2 {
            match parse_list(b, p, parse_u16_fn()) {
                None => None,
                Some((v, p2)) => Some((IntArrayOpModel::ConstArray16(v), p2)),
            }
        } else if tag == 3 {
            match parse_list(b, p, parse_u32_fn()) {
                None => None,
                Some((v, p2)) => Some((IntArrayOpModel::ConstArray32(v), p2)),
            }
        } else if tag == 4 {
            match parse_list(b, p, parse_u64_fn()) {
                None => None,
                Some((v, p2)) => Some((IntArrayOpModel::ConstArray64(v), p2)),
            }
        } else if tag == 5 {
            match parse_u8(b, p) {
                None => None,
                Some((bits, p2)) => Some((IntArrayOpModel::Zero { bits }, p2)),
            }
        } else if tag == 6 {
            Some((IntArrayOpModel::GetIndex, p))
        } else if tag == 7 {
            Some((IntArrayOpModel::SetIndex, p))
        } else if tag == 8 {
            Some((IntArrayOpModel::Length, p))
        } else if tag == 9 {
            Some((IntArrayOpModel::Create, p))
        } else {
            None
        },
    }
}

pub open spec fn enc_float_op(o: FloatOp) -> Seq<u8> {
    match o {
        FloatOp::Const32(v) => seq![0u8] + enc_u32(v),
        FloatOp::Const64(v) => seq![1u8] + enc_u64(v),
        FloatOp::Add => seq![2u8],
        FloatOp::Sub => seq![3u8],
        FloatOp::Mul => seq![4u8],
        FloatOp::Pow => seq![5u8],
        FloatOp::Eq => seq![6u8],
        FloatOp::Lt => seq![7u8],
        FloatOp::Lte => seq![8u8],
        FloatOp::Sqrt => seq![9u8],
        FloatOp::Abs => seq![10u8],
        FloatOp::Ceil => seq![11u8],
        FloatOp::Floor => seq![12u8],
        FloatOp::IsNan => seq![13u8],
        FloatOp::IsInf => seq![14u8],
        FloatOp::Exp => seq![15u8],
        FloatOp::Log => seq![16u8],
        FloatOp::Sin => seq![17u8],
        FloatOp::Cos => seq![18u8],
        FloatOp::Tan => seq![19u8],
        FloatOp::Asin => seq![20u8],
        FloatOp::Acos => seq![21u8],
        FloatOp::Atan => seq![22u8],
        FloatOp::Atan2 => seq![23u8],
        FloatOp::Sinh => seq![24u8],
        FloatOp::Cosh => seq![25u8],
        FloatOp::Tanh => seq![26u8],
        FloatOp::Asinh => seq![27u8],
        FloatOp::Acosh => seq![28u8],
        FloatOp::Atanh => seq![29u8],
        FloatOp::Max => seq![30u8],
        FloatOp::Min => seq![31u8],
    }
}

pub open spec fn float_op_of_tag(tag: u8) -> Option<FloatOp> {
    if tag == 2 {
        Some(FloatOp::Add)
    } else if tag == 3 {
        Some(FloatOp::Sub)
    } else if tag == 4 {
        Some(FloatOp::Mul)
    } else if tag == 5 {
        Some(FloatOp::Pow)
    } else if tag == 6 {
        Some(FloatOp::Eq)
    } else if tag == 7 {
        Some(FloatOp::Lt)
    } else if tag == 8 {
        Some(FloatOp::Lte)
    } else if tag == 9 {
        Some(FloatOp::Sqrt)
    } else if tag == 10 {
        Some(FloatOp::Abs)
    } else if tag == 11 {
        Some(FloatOp::Ceil)
    } else if tag == 12 {
        Some(FloatOp::Floor)
    } else if tag == 13 {
        Some(FloatOp::IsNan)
    } else if tag == 14 {
        Some(FloatOp::IsInf)
    } else if tag == 15 {
        Some(FloatOp::Exp)
    } else if tag == 16 {
        Some(FloatOp::Log)
    } else if tag == 17 {
        Some(FloatOp::Sin)
    } else if tag == 18 {
        Some(FloatOp::Cos)
    } else if tag == 19 {
        Some(FloatOp::Tan)
    } else if tag == 20 {
        Some(FloatOp::Asin)
    } else if tag == 21 {
        Some(FloatOp::Acos)
    } else if tag == 22 {
        Some(FloatOp::Atan)
    } else if tag == 23 {
        Some(FloatOp::Atan2)
    } else if tag == 24 {
        Some(FloatOp::Sinh)
    } else if tag == 25 {
        Some(FloatOp::Cosh)
    } else if tag == 26 {
        Some(FloatOp::Tanh)
    } else if tag == 27 {
        Some(FloatOp::Asinh)
    } else if tag == 28 {
        Some(FloatOp::Acosh)
    } else if tag == 29 {
        Some(FloatOp::Atanh)
    } else if tag == 30 {
        Some(FloatOp::Max)
    } else if tag == 31 {
        Some(FloatOp::Min)
    } else {
        None
    }
}

pub open spec fn parse_float_op(b: Seq<u8>, pos: int) -> Option<(FloatOp, int)> {
    match parse_u8(b, pos) {
        None => None,
        Some((tag, p)) => if tag == 0 {
            match parse_u32(b, p) {
                None => None,
                Some((v, p2)) => Some((FloatOp::Const32(v), p2)),
            }
        } else if tag == 1 {
            match parse_u64(b, p) {
                None => None,
                Some((v, p2)) => Some((FloatOp::Const64(v), p2)),
            }
        } else {
            match float_op_of_tag(tag) {
                None => None,
                Some(o) => Some((o, p)),
            }
        },
    }
}

pub open spec fn enc_float_array_op(o: FloatArrayOpModel) -> Seq<u8> {
    match o {
        FloatArrayOpModel::Const32(v) => seq![0u8] + enc_list(v, enc_u32_fn()),
        FloatArrayOpModel::Const64(v) => seq![1u8] + enc_list(v, enc_u64_fn()),
        FloatArrayOpModel::Zero { precision } => seq![2u8] + enc_u8(prec_code(precision)),
        FloatArrayOpModel::GetIndex => seq![3u8],
        FloatArrayOpModel::SetIndex => seq![4u8],
        FloatArrayOpModel::Length => seq![5u8],
        FloatArrayOpModel::Create => seq![6u8],
    }
}

pub open spec fn parse_float_array_op(b: Seq<u8>, pos: int) -> Option<(FloatArrayOpModel, int)> {
    match parse_u8(b, pos) {
        None => None,
        Some((tag, p)) => if tag == 0 {
            match parse_list(b, p, parse_u32_fn()) {
                None => None,
                Some((v, p2)) => Some((FloatArrayOpModel::Const32(v), p2)),
            }
        } else if tag == 1 {
            match parse_list(b, p, parse_u64_fn()) {
                None => None,
                Some((v, p2)) => Some((FloatArrayOpModel::Const64(v), p2)),
            }
        } else if tag == 2 {
            match parse_prec(b, p) {
                None => None,
                Some((precision, p2)) => Some((FloatArrayOpModel::Zero { precision }, p2)),
            }
        } else if tag == 3 {
            Some((FloatArrayOpModel::GetIndex, p))
        } else if tag == 4 {
            Some((FloatArrayOpModel::SetIndex, p))
        } else if tag == 5 {
            Some((FloatArrayOpModel::Length, p))
        } else if tag == 6 {
            Some((FloatArrayOpModel::Create, p))
        } else {
            None
        },
    }
}

pub open spec fn enc_opt_u32(o: Option<u32>) -> Seq<u8> {
    match o {
        None => seq![0u8],
        Some(v) => seq![1u8] + enc_u32(v),
    }
}

pub open spec fn parse_opt_u32(b: Seq<u8>, pos: int) -> Option<(Option<u32>, int)> {
    match parse_u8(b, pos) {
        None => None,
        Some((tag, p)) => if tag == 0 {
            Some((None, p))
        } else if tag == 1 {
            match parse_u32(b, p) {
                None => None,
                Some((v, p2)) => Some((Some(v), p2)),
            }
        } else {
            None
        },
    }
}

pub open spec fn enc_control_flow(cf: ControlFlowModel) -> Seq<u8> {
    match cf {
        ControlFlowModel::Switch { branches, default } => seq![0u8] + enc_list(
            branches,
            enc_u32_fn(),
        ) + enc_opt_u32(default),
        ControlFlowModel::For { region } => seq![1u8] + enc_u32(region),
        ControlFlowModel::While { condition, body } => seq![2u8] + enc_u32(condition) + enc_u32(
            body,
        ),
        ControlFlowModel::DoWhile { body, condition } => seq![3u8] + enc_u32(body) + enc_u32(
            condition,
        ),
    }
}

pub open spec fn parse_control_flow(b: Seq<u8>, pos: int) -> Option<(ControlFlowModel, int)> {
    match parse_u8(b, pos) {
        None => None,
        Some((tag, p)) => if tag == 0 {
            match parse_list(b, p, parse_u32_fn()) {
                None => None,
                Some((branches, p2)) => match parse_opt_u32(b, p2) {
                    None => None,
                    Some((default, p3)) => Some(
                        (ControlFlowModel::Switch { branches, default }, p3),
                    ),
                },
            }
        } else if tag == 1 {
            match parse_u32(b, p) {
                None => None,
                Some((region, p2)) => Some((ControlFlowModel::For { region }, p2)),
            }
        } else if tag == 2 {
            match parse_u32(b, p) {
                None => None,
                Some((condition, p2)) => match parse_u32(b, p2) {
                    None => None,
                    Some((body, p3)) => Some((ControlFlowModel::While { condition, body }, p3)),
                },
            }
        } else if tag == 3 {
            match parse_u32(b, p) {
                None => None,
                Some((body, p2)) => match parse_u32(b, p2) {
                    None => None,
                    Some((condition, p3)) => Some(
                        (ControlFlowModel::DoWhile { body, condition }, p3),
                    ),
                },
            }
        } else {
            None
        },
    }
}

pub open spec fn enc_op_type(t: OpTypeModel) -> Seq<u8> {
    match t {
        OpTypeModel::QubitOp(q) => seq![0u8] + enc_qubit_op(q),
        OpTypeModel::QubitRegisterOp(q) => seq![1u8] + enc_u8(qureg_code(q)),
        OpTypeModel::IntOp(o) => seq![2u8] + enc_int_op(o),
        OpTypeModel::IntArrayOp(o) => seq![3u8] + enc_int_array_op(o),
        OpTypeModel::FloatOp(o) => seq![4u8] + enc_float_op(o),
        OpTypeModel::FloatArrayOp(o) => seq![5u8] + enc_float_array_op(o),
        OpTypeModel::ControlFlowOp(cf) => seq![6u8] + enc_control_flow(cf),
        OpTypeModel::FuncOp(f) => seq![7u8] + enc_u32(f.func_idx),
    }
}

pub open spec fn parse_op_type(b: Seq<u8>, pos: int) -> Option<(OpTypeModel, int)> {
    match parse_u8(b, pos) {
        None => None,
        Some((tag, p)) => if tag == 0 {
            match parse_qubit_op(b, p) {
                None => None,
                Some((q, p2)) => Some((OpTypeModel::QubitOp(q), p2)),
            }
        } else if tag == 1 {
            match parse_qureg_op(b, p) {
                None => None,
                Some((q, p2)) => Some((OpTypeModel::QubitRegisterOp(q), p2)),
            }
        } else if tag == 2 {
            match parse_int_op(b, p) {
                None => None,
                Some((o, p2)) => Some((OpTypeModel::IntOp(o), p2)),
            }
        } else if tag == 3 {
            match parse_int_array_op(b, p) {
                None => None,
                Some((o, p2)) => Some((OpTypeModel::IntArrayOp(o), p2)),
            }
        } else if tag == 4 {
            match parse_float_op(b, p) {
                None => None,
                Some((o, p2)) => Some((OpTypeModel::FloatOp(o), p2)),
            }
        } else if tag == 5 {
            match parse_float_array_op(b, p) {
                None => None,
                Some((o, p2)) => Some((OpTypeModel::FloatArrayOp(o), p2)),
            }
        } else if tag == 6 {
            match parse_control_flow(b, p) {
                None => None,
                Some((cf, p2)) => Some((OpTypeModel::ControlFlowOp(cf), p2)),
            }
        } else if tag == 7 {
            match parse_u32(b, p) {
                None => None,
                Some((func_idx, p2)) => Some((OpTypeModel::FuncOp(FuncOp { func_idx }), p2)),
            }
        } else {
            None
        },
    }
}

// ---------------------------------------------------------------------------
// Operations, regions, functions and the module.
// ---------------------------------------------------------------------------

pub open spec fn enc_op(o: OpModel) -> Seq<u8> {
    enc_op_type(o.op_type) + enc_list(o.inputs, enc_u32_fn()) + enc_list(o.outputs, enc_u32_fn())
        + enc_metas(o.metadata)
}

pub open spec fn parse_op(b: Seq<u8>, pos: int) -> Option<(OpModel, int)> {
    match parse_op_type(b, pos) {
        None => None,
        Some((op_type, p)) => match parse_list(b, p, parse_u32_fn()) {
            None => None,
            Some((inputs, p2)) => match parse_list(b, p2, parse_u32_fn()) {
                None => None,
                Some((outputs, p3)) => match parse_metas(b, p3) {
                    None => None,
                    Some((metadata, p4)) => Some(
                        (OpModel { op_type, inputs, outputs, metadata }, p4),
                    ),
                },
            },
        },
    }
}

pub open spec fn enc_region(r: RegionModel) -> Seq<u8> {
    enc_list(r.sources, enc_u32_fn()) + enc_list(r.targets, enc_u32_fn()) + enc_list(
        r.operations,
        enc_op_fn(),
    ) + enc_metas(r.metadata)
}

pub open spec fn parse_region(b: Seq<u8>, pos: int) -> Option<(RegionModel, int)> {
    match parse_list(b, pos, parse_u32_fn()) {
        None => None,
        Some((sources, p)) => match parse_list(b, p, parse_u32_fn()) {
            None => None,
            Some((targets, p2)) => match parse_list(b, p2, parse_op_fn()) {
                None => None,
                Some((operations, p3)) => match parse_metas(b, p3) {
                    None => None,
                    Some((metadata, p4)) => Some(
                        (RegionModel { sources, targets, operations, metadata }, p4),
                    ),
                },
            },
        },
    }
}

pub open spec fn enc_function(f: FunctionModel) -> Seq<u8> {
    match f {
        FunctionModel::Definition(d) => seq![0u8] + enc_u16(d.name) + enc_list(
            d.values,
            enc_value_fn(),
        ) + enc_list(d.regions, enc_region_fn()) + enc_metas(d.metadata),
        FunctionModel::Declaration(d) => seq![1u8] + enc_u16(d.name) + enc_list(
            d.inputs,
            enc_value_fn(),
        ) + enc_list(d.outputs, enc_value_fn()) + enc_metas(d.metadata),
    }
}

pub open spec fn parse_function(b: Seq<u8>, pos: int) -> Option<(FunctionModel, int)> {
    match parse_u8(b, pos) {
        None => None,
        Some((tag, p)) => if tag == 0 {
            match parse_u16(b, p) {
                None => None,
                Some((name, p2)) => match parse_list(b, p2, parse_value_fn()) {
                    None => None,
                    Some((values, p3)) => match parse_list(b, p3, parse_region_fn()) {
                        None => None,
                        Some((regions, p4)) => match parse_metas(b, p4) {
                            None => None,
                            Some((metadata, p5)) => Some(
                                (
                                    FunctionModel::Definition(
                                        DefinitionModel { name, values, regions, metadata },
                                    ),
                                    p5,
                                ),
                            ),
                        },
                    },
                },
            }
        } else if tag == 1 {
            match parse_u16(b, p) {
                None => None,
                Some((name, p2)) => match parse_list(b, p2, parse_value_fn()) {
                    None => None,
                    Some((inputs, p3)) => match parse_list(b, p3, parse_value_fn()) {
                        None => None,
                        Some((outputs, p4)) => match parse_metas(b, p4) {
                            None => None,
                            Some((metadata, p5)) => Some(
                                (
                                    FunctionModel::Declaration(
                                        DeclarationModel { name, inputs, outputs, metadata },
                                    ),
                                    p5,
                                ),
                            ),
                        },
                    },
                },
            }
        } else {
            None
        },
    }
}

/// The four magic bytes that open every jeff message.
pub open spec fn magic() -> Seq<u8> {
    seq![0x6au8, 0x65u8, 0x66u8, 0x66u8]
}

pub open spec fn enc_module(m: ModuleModel) -> Seq<u8> {
    magic() + enc_u32(m.version) + enc_bytes(m.tool) + enc_bytes(m.tool_version) + enc_u32(
        m.entrypoint,
    ) + enc_list(m.strings, enc_bytes_fn()) + enc_list(m.functions, enc_function_fn()) + enc_metas(
        m.metadata,
    )
}

pub open spec fn parse_module(b: Seq<u8>, pos: int) -> Option<(ModuleModel, int)> {
    if 0 <= pos && pos + 4 <= b.len() && b.subrange(pos, pos + 4) == magic() {
        match parse_u32(b, pos + 4) {
            None => None,
            Some((version, p)) => match parse_bytes(b, p) {
                None => None,
                Some((tool, p2)) => match parse_bytes(b, p2) {
                    None => None,
                    Some((tool_version, p3)) => match parse_u32(b, p3) {
                        None => None,
                        Some((entrypoint, p4)) => match parse_list(b, p4, parse_bytes_fn()) {
                            None => None,
                            Some((strings, p5)) => match parse_list(b, p5, parse_function_fn()) {
                                None => None,
                                Some((functions, p6)) => match parse_metas(b, p6) {
                                    None => None,
                                    Some((metadata, p7)) => Some(
                                        (
                                            ModuleModel {
                                                version,
                                                tool,
                                                tool_version,
                                                entrypoint,
                                                strings,
                                                functions,
                                                metadata,
                                            },
                                            p7,
                                        ),
                                    ),
                                },
                            },
                        },
                    },
                },
            },
        }
    } else {
        None
    }
}

} // verus!
