//! Executable decoder for the jeff wire format.
//!
//! Each function refines the corresponding `parse_*` specification of
//! [`crate::wire`]: it returns `Some` exactly when the specification does,
//! with the same value and end position.

use vstd::prelude::*;
use vstd::slice::slice_subrange;
use vstd::slice::slice_to_vec;

use crate::data::ControlFlowData;
use crate::data::DeclarationData;
use crate::data::DefinitionData;
use crate::data::FloatArrayOpData;
use crate::data::FunctionData;
use crate::data::GateData;
use crate::data::GateTypeData;
use crate::data::IntArrayOpData;
use crate::data::MetaEntry;
use crate::data::ModuleData;
use crate::data::OpData;
use crate::data::OpTypeData;
use crate::data::QubitOpData;
use crate::data::RegionData;
use crate::data::ValueData;
use crate::model::MetaModel;
use crate::model::ValueModel;
use crate::reader::optype::qubit::Pauli;
use crate::reader::optype::qubit::WellKnownGate;
use crate::reader::optype::qubit::QubitRegisterOp;
use crate::reader::optype::FloatOp;
use crate::reader::optype::FuncOp;
use crate::reader::optype::IntOp;
use crate::types::FloatPrecision;
use crate::types::Type;
use crate::wire::magic;
use crate::wire::parse_bool;
use crate::wire::parse_bool_fn;
use crate::wire::parse_bytes_fn;
use crate::wire::parse_control_flow;
use crate::wire::parse_float_array_op;
use crate::wire::parse_float_op;
use crate::wire::parse_function;
use crate::wire::parse_function_fn;
use crate::wire::parse_gate;
use crate::wire::parse_gate_type;
use crate::wire::parse_int_array_op;
use crate::wire::parse_int_op;
use crate::wire::parse_module;
use crate::wire::parse_op;
use crate::wire::parse_op_fn;
use crate::wire::parse_op_type;
use crate::wire::parse_opt_u32;
use crate::wire::parse_pauli_fn;
use crate::wire::parse_qubit_op;
use crate::wire::parse_region;
use crate::wire::parse_region_fn;
use crate::wire::parse_u16_fn;
use crate::wire::parse_u64_fn;
use crate::wire::parse_u8_fn;
use crate::wire::parse_bytes;
use crate::wire::parse_list;
use crate::wire::parse_meta;
use crate::wire::parse_meta_fn;
use crate::wire::parse_metas;
use crate::wire::parse_n;
use crate::wire::parse_pauli;
use crate::wire::parse_prec;
use crate::wire::parse_qureg_op;
use crate::wire::parse_type;
use crate::wire::parse_u16;
use crate::wire::parse_u32;
use crate::wire::parse_u32_fn;
use crate::wire::parse_u64;
use crate::wire::parse_u8;
use crate::wire::parse_value;
use crate::wire::parse_value_fn;
use crate::wire::parse_well_known;

verus! {

/// One parse step of `parse_n`, unfolded.
proof fn lemma_parse_n_step<T>(
    b: Seq<u8>,
    pos: int,
    n: nat,
    f: spec_fn(Seq<u8>, int) -> Option<(T, int)>,
)
    requires
        n > 0,
    ensures
        f(b, pos) is None ==> parse_n(b, pos, n, f) is None,
        (f(b, pos) matches Some((v, p2)) ==> parse_n(b, pos, n, f) == (match parse_n(
            b,
            p2,
            (n - 1) as nat,
            f,
        ) {
            None => None::<(Seq<T>, int)>,
            Some((rest, p3)) => Some((seq![v] + rest, p3)),
        })),
{
}

pub(crate) fn d_u8(b: &[u8], pos: usize) -> (r: Option<(u8, usize)>)
    requires
        pos <= b@.len(),
    ensures
        (r matches Some((v, end)) ==> parse_u8(b@, pos as int) == Some((v, end as int)) && pos
            <= end <= b@.len()),
        r is None ==> parse_u8(b@, pos as int) is None,
{
    if pos < b.len() {
        Some((b[pos], pos + 1))
    } else {
        None
    }
}

pub(crate) fn d_bool(b: &[u8], pos: usize) -> (r: Option<(bool, usize)>)
    requires
        pos <= b@.len(),
    ensures
        (r matches Some((v, end)) ==> parse_bool(b@, pos as int) == Some((v, end as int)) && pos
            <= end <= b@.len()),
        r is None ==> parse_bool(b@, pos as int) is None,
{
    match d_u8(b, pos) {
        None => None,
        Some((v, p)) => if v == 0 {
            Some((false, p))
        } else if v == 1 {
            Some((true, p))
        } else {
            None
        },
    }
}

pub(crate) fn d_u16(b: &[u8], pos: usize) -> (r: Option<(u16, usize)>)
    requires
        pos <= b@.len(),
    ensures
        (r matches Some((v, end)) ==> parse_u16(b@, pos as int) == Some((v, end as int)) && pos
            <= end <= b@.len()),
        r is None ==> parse_u16(b@, pos as int) is None,
{
    if b.len() - pos >= 2 {
        let v: u16 = (b[pos] as u16) | ((b[pos + 1] as u16) << 8u16);
        Some((v, pos + 2))
    } else {
        None
    }
}

pub(crate) fn d_u32(b: &[u8], pos: usize) -> (r: Option<(u32, usize)>)
    requires
        pos <= b@.len(),
    ensures
        (r matches Some((v, end)) ==> parse_u32(b@, pos as int) == Some((v, end as int)) && pos
            <= end <= b@.len()),
        r is None ==> parse_u32(b@, pos as int) is None,
{
    if b.len() - pos >= 4 {
        let v: u32 = (b[pos] as u32) | ((b[pos + 1] as u32) << 8u32) | ((b[pos + 2] as u32)
            << 16u32) | ((b[pos + 3] as u32) << 24u32);
        Some((v, pos + 4))
    } else {
        None
    }
}

pub(crate) fn d_u64(b: &[u8], pos: usize) -> (r: Option<(u64, usize)>)
    requires
        pos <= b@.len(),
    ensures
        (r matches Some((v, end)) ==> parse_u64(b@, pos as int) == Some((v, end as int)) && pos
            <= end <= b@.len()),
        r is None ==> parse_u64(b@, pos as int) is None,
{
    if b.len() - pos >= 8 {
        let v: u64 = (b[pos] as u64) | ((b[pos + 1] as u64) << 8u64) | ((b[pos + 2] as u64)
            << 16u64) | ((b[pos + 3] as u64) << 24u64) | ((b[pos + 4] as u64) << 32u64) | ((b[pos
            + 5] as u64) << 40u64) | ((b[pos + 6] as u64) << 48u64) | ((b[pos + 7] as u64)
            << 56u64);
        Some((v, pos + 8))
    } else {
        None
    }
}

pub(crate) fn d_bytes(b: &[u8], pos: usize) -> (r: Option<(Vec<u8>, usize)>)
    requires
        pos <= b@.len(),
    ensures
        (r matches Some((v, end)) ==> parse_bytes(b@, pos as int) == Some((v@, end as int)) && pos
            <= end <= b@.len()),
        r is None ==> parse_bytes(b@, pos as int) is None,
{
    match d_u32(b, pos) {
        None => None,
        Some((n, p)) => {
            let n_us: usize = n as usize;
            if n_us <= b.len() - p {
                let v: Vec<u8> = slice_to_vec(slice_subrange(b, p, p + n_us));
                Some((v, p + n_us))
            } else {
                None
            }
        },
    }
}

pub(crate) fn d_prec(b: &[u8], pos: usize) -> (r: Option<(FloatPrecision, usize)>)
    requires
        pos <= b@.len(),
    ensures
        (r matches Some((v, end)) ==> parse_prec(b@, pos as int) == Some((v, end as int)) && pos
            <= end <= b@.len()),
        r is None ==> parse_prec(b@, pos as int) is None,
{
    match d_u8(b, pos) {
        None => None,
        Some((v, p)) => if v == 0 {
            Some((FloatPrecision::Float32, p))
        } else if v == 1 {
            Some((FloatPrecision::Float64, p))
        } else {
            None
        },
    }
}

pub(crate) fn d_pauli(b: &[u8], pos: usize) -> (r: Option<(Pauli, usize)>)
    requires
        pos <= b@.len(),
    ensures
        (r matches Some((v, end)) ==> parse_pauli(b@, pos as int) == Some((v, end as int)) && pos
            <= end <= b@.len()),
        r is None ==> parse_pauli(b@, pos as int) is None,
{
    match d_u8(b, pos) {
        None => None,
        Some((v, p)) => if v == 0 {
            Some((Pauli::X, p))
        } else if v == 1 {
            Some((Pauli::Y, p))
        } else if v == 2 {
            Some((Pauli::Z, p))
        } else if v == 3 {
            Some((Pauli::I, p))
        } else {
            None
        },
    }
}

pub(crate) fn d_well_known(b: &[u8], pos: usize) -> (r: Option<(WellKnownGate, usize)>)
    requires
        pos <= b@.len(),
    ensures
        (r matches Some((v, end)) ==> parse_well_known(b@, pos as int) == Some((v, end as int))
            && pos <= end <= b@.len()),
        r is None ==> parse_well_known(b@, pos as int) is None,
{
    match d_u8(b, pos) {
        None => None,
        Some((v, p)) => if v == 0 {
            Some((WellKnownGate::GPhase, p))
        } else if v == 1 {
            Some((WellKnownGate::I, p))
        } else if v == 2 {
            Some((WellKnownGate::X, p))
        } else if v == 3 {
            Some((WellKnownGate::Y, p))
        } else if v == 4 {
            Some((WellKnownGate::Z, p))
        } else if v == 5 {
            Some((WellKnownGate::S, p))
        } else if v == 6 {
            Some((WellKnownGate::T, p))
        } else if v == 7 {
            Some((WellKnownGate::R1, p))
        } else if v == 8 {
            Some((WellKnownGate::Rx, p))
        } else if v == 9 {
            Some((WellKnownGate::Ry, p))
        } else if v == 10 {
            Some((WellKnownGate::Rz, p))
        } else if v == 11 {
            Some((WellKnownGate::H, p))
        } else if v == 12 {
            Some((WellKnownGate::U, p))
        } else if v == 13 {
            Some((WellKnownGate::Swap, p))
        } else {
            None
        },
    }
}

pub(crate) fn d_qureg_op(b: &[u8], pos: usize) -> (r: Option<(QubitRegisterOp, usize)>)
    requires
        pos <= b@.len(),
    ensures
        (r matches Some((v, end)) ==> parse_qureg_op(b@, pos as int) == Some((v, end as int))
            && pos <= end <= b@.len()),
        r is None ==> parse_qureg_op(b@, pos as int) is None,
{
    match d_u8(b, pos) {
        None => None,
        Some((v, p)) => if v == 0 {
            Some((QubitRegisterOp::Alloc, p))
        } else if v == 1 {
            Some((QubitRegisterOp::Free, p))
        } else if v == 2 {
            Some((QubitRegisterOp::FreeZero, p))
        } else if v == 3 {
            Some((QubitRegisterOp::ExtractIndex, p))
        } else if v == 4 {
            Some((QubitRegisterOp::InsertIndex, p))
        } else if v == 5 {
            Some((QubitRegisterOp::ExtractSlice, p))
        } else if v == 6 {
            Some((QubitRegisterOp::InsertSlice, p))
        } else if v == 7 {
            Some((QubitRegisterOp::Length, p))
        } else if v == 8 {
            Some((QubitRegisterOp::Split, p))
        } else if v == 9 {
            Some((QubitRegisterOp::Join, p))
        } else if v == 10 {
            Some((QubitRegisterOp::Create, p))
        } else {
            None
        },
    }
}

pub(crate) fn d_type(b: &[u8], pos: usize) -> (r: Option<(Type, usize)>)
    requires
        pos <= b@.len(),
    ensures
        (r matches Some((v, end)) ==> parse_type(b@, pos as int) == Some((v, end as int)) && pos
            <= end <= b@.len()),
        r is None ==> parse_type(b@, pos as int) is None,
{
    match d_u8(b, pos) {
        None => None,
        Some((tag, p)) => if tag == 0 {
            Some((Type::Qubit, p))
        } else if tag == 1 {
            Some((Type::QubitRegister, p))
        } else if tag == 2 {
            match d_u8(b, p) {
                None => None,
                Some((bits, p2)) => Some((Type::Int { bits }, p2)),
            }
        } else if tag == 3 {
            match d_u8(b, p) {
                None => None,
                Some((bits, p2)) => Some((Type::IntArray { bits }, p2)),
            }
        } else if tag == 4 {
            match d_prec(b, p) {
                None => None,
                Some((precision, p2)) => Some((Type::Float { precision }, p2)),
            }
        } else if tag == 5 {
            match d_prec(b, p) {
                None => None,
                Some((precision, p2)) => Some((Type::FloatArray { precision }, p2)),
            }
        } else {
            None
        },
    }
}

pub(crate) fn d_meta(b: &[u8], pos: usize) -> (r: Option<(MetaEntry, usize)>)
    requires
        pos <= b@.len(),
    ensures
        (r matches Some((v, end)) ==> parse_meta(b@, pos as int) == Some((v@, end as int)) && pos
            <= end <= b@.len()),
        r is None ==> parse_meta(b@, pos as int) is None,
{
    match d_u16(b, pos) {
        None => None,
        Some((name, p)) => match d_bytes(b, p) {
            None => None,
            Some((value, p2)) => Some((MetaEntry { name, value }, p2)),
        },
    }
}

pub(crate) fn d_metas(b: &[u8], pos: usize) -> (r: Option<(Vec<MetaEntry>, usize)>)
    requires
        pos <= b@.len(),
    ensures
        (r matches Some((v, end)) ==> parse_metas(b@, pos as int) == Some(
            (crate::data::metas_view(v@), end as int),
        ) && pos <= end <= b@.len()),
        r is None ==> parse_metas(b@, pos as int) is None,
{
    let ghost f = parse_meta_fn();
    match d_u32(b, pos) {
        None => None,
        Some((n, p0)) => {
            let n_us: usize = n as usize;
            let mut out: Vec<MetaEntry> = Vec::new();
            let mut cur: usize = p0;
            let mut i: usize = 0;
            while i < n_us
                invariant
                    f == parse_meta_fn(),
                    pos <= b@.len(),
                    parse_u32(b@, pos as int) == Some((n, p0 as int)),
                    n_us == n as usize,
                    i <= n_us,
                    p0 <= cur,
                    cur <= b@.len(),
                    out@.len() == i,
                    parse_n(b@, p0 as int, n_us as nat, f) == (match parse_n(
                        b@,
                        cur as int,
                        (n_us - i) as nat,
                        f,
                    ) {
                        None => None::<(Seq<MetaModel>, int)>,
                        Some((rest, e)) => Some((crate::data::metas_view(out@) + rest, e)),
                    }),
                decreases n_us - i,
            {
                proof {
                    lemma_parse_n_step(b@, cur as int, (n_us - i) as nat, f);
                }
                match d_meta(b, cur) {
                    None => {
                        return None;
                    },
                    Some((v, nxt)) => {
                        proof {
                            let prefix = crate::data::metas_view(out@);
                            assert(crate::data::metas_view(out@.push(v)) =~= prefix + seq![v@]);
                            assert(forall|rest: Seq<MetaModel>|
                                (prefix + seq![v@]) + rest =~= prefix + (seq![v@] + rest));
                        }
                        out.push(v);
                        cur = nxt;
                        i = i + 1;
                    },
                }
            }
            proof {
                assert(crate::data::metas_view(out@) + Seq::<MetaModel>::empty()
                    =~= crate::data::metas_view(out@));
            }
            Some((out, cur))
        },
    }
}

pub(crate) fn d_value(b: &[u8], pos: usize) -> (r: Option<(ValueData, usize)>)
    requires
        pos <= b@.len(),
    ensures
        (r matches Some((v, end)) ==> parse_value(b@, pos as int) == Some((v@, end as int)) && pos
            <= end <= b@.len()),
        r is None ==> parse_value(b@, pos as int) is None,
{
    match d_type(b, pos) {
        None => None,
        Some((ty, p)) => match d_metas(b, p) {
            None => None,
            Some((metadata, p2)) => Some((ValueData { ty, metadata }, p2)),
        },
    }
}

pub(crate) fn d_values(b: &[u8], pos: usize) -> (r: Option<(Vec<ValueData>, usize)>)
    requires
        pos <= b@.len(),
    ensures
        (r matches Some((v, end)) ==> parse_list(b@, pos as int, parse_value_fn()) == Some(
            (crate::data::values_view(v@), end as int),
        ) && pos <= end <= b@.len()),
        r is None ==> parse_list(b@, pos as int, parse_value_fn()) is None,
{
    let ghost f = parse_value_fn();
    match d_u32(b, pos) {
        None => None,
        Some((n, p0)) => {
            let n_us: usize = n as usize;
            let mut out: Vec<ValueData> = Vec::new();
            let mut cur: usize = p0;
            let mut i: usize = 0;
            while i < n_us
                invariant
                    f == parse_value_fn(),
                    pos <= b@.len(),
                    parse_u32(b@, pos as int) == Some((n, p0 as int)),
                    n_us == n as usize,
                    i <= n_us,
                    p0 <= cur,
                    cur <= b@.len(),
                    out@.len() == i,
                    parse_n(b@, p0 as int, n_us as nat, f) == (match parse_n(
                        b@,
                        cur as int,
                        (n_us - i) as nat,
                        f,
                    ) {
                        None => None::<(Seq<ValueModel>, int)>,
                        Some((rest, e)) => Some((crate::data::values_view(out@) + rest, e)),
                    }),
                decreases n_us - i,
            {
                proof {
                    lemma_parse_n_step(b@, cur as int, (n_us - i) as nat, f);
                }
                match d_value(b, cur) {
                    None => {
                        return None;
                    },
                    Some((v, nxt)) => {
                        proof {
                            let prefix = crate::data::values_view(out@);
                            assert(crate::data::values_view(out@.push(v)) =~= prefix + seq![v@]);
                            assert(forall|rest: Seq<ValueModel>|
                                (prefix + seq![v@]) + rest =~= prefix + (seq![v@] + rest));
                        }
                        out.push(v);
                        cur = nxt;
                        i = i + 1;
                    },
                }
            }
            proof {
                assert(crate::data::values_view(out@) + Seq::<ValueModel>::empty()
                    =~= crate::data::values_view(out@));
            }
            Some((out, cur))
        },
    }
}

pub(crate) fn d_u32_list(b: &[u8], pos: usize) -> (r: Option<(Vec<u32>, usize)>)
    requires
        pos <= b@.len(),
    ensures
        (r matches Some((v, end)) ==> parse_list(b@, pos as int, parse_u32_fn()) == Some(
            (v@, end as int),
        ) && pos <= end <= b@.len()),
        r is None ==> parse_list(b@, pos as int, parse_u32_fn()) is None,
{
    let ghost f = parse_u32_fn();
    match d_u32(b, pos) {
        None => None,
        Some((n, p0)) => {
            let n_us: usize = n as usize;
            let mut out: Vec<u32> = Vec::new();
            let mut cur: usize = p0;
            let mut i: usize = 0;
            while i < n_us
                invariant
                    f == parse_u32_fn(),
                    pos <= b@.len(),
                    parse_u32(b@, pos as int) == Some((n, p0 as int)),
                    n_us == n as usize,
                    i <= n_us,
                    p0 <= cur,
                    cur <= b@.len(),
                    out@.len() == i,
                    parse_n(b@, p0 as int, n_us as nat, f) == (match parse_n(
                        b@,
                        cur as int,
                        (n_us - i) as nat,
                        f,
                    ) {
                        None => None::<(Seq<u32>, int)>,
                        Some((rest, e)) => Some((out@ + rest, e)),
                    }),
                decreases n_us - i,
            {
                proof {
                    lemma_parse_n_step(b@, cur as int, (n_us - i) as nat, f);
                }
                match d_u32(b, cur) {
                    None => {
                        return None;
                    },
                    Some((v, nxt)) => {
                        proof {
                            let prefix = out@;
                            assert(forall|rest: Seq<u32>|
                                (prefix + seq![v]) + rest =~= prefix + (seq![v] + rest));
                        }
                        out.push(v);
                        cur = nxt;
                        i = i + 1;
                    },
                }
            }
            proof {
                assert(out@ + Seq::<u32>::empty() =~= out@);
            }
            Some((out, cur))
        },
    }
}


pub(crate) fn d_bool_list(b: &[u8], pos: usize) -> (r: Option<(Vec<bool>, usize)>)
    requires
        pos <= b@.len(),
    ensures
        (r matches Some((v, end)) ==> parse_list(b@, pos as int, parse_bool_fn()) == Some(
            (v@, end as int),
        ) && pos <= end <= b@.len()),
        r is None ==> parse_list(b@, pos as int, parse_bool_fn()) is None,
{
    let ghost f = parse_bool_fn();
    match d_u32(b, pos) {
        None => None,
        Some((n, p0)) => {
            let n_us: usize = n as usize;
            let mut out: Vec<bool> = Vec::new();
            let mut cur: usize = p0;
            let mut i: usize = 0;
            while i < n_us
                invariant
                    f == parse_bool_fn(),
                    pos <= b@.len(),
                    parse_u32(b@, pos as int) == Some((n, p0 as int)),
                    n_us == n as usize,
                    i <= n_us,
                    p0 <= cur,
                    cur <= b@.len(),
                    out@.len() == i,
                    parse_n(b@, p0 as int, n_us as nat, f) == (match parse_n(
                        b@,
                        cur as int,
                        (n_us - i) as nat,
                        f,
                    ) {
                        None => None::<(Seq<bool>, int)>,
                        Some((rest, e)) => Some((out@ + rest, e)),
                    }),
                decreases n_us - i,
            {
                proof {
                    lemma_parse_n_step(b@, cur as int, (n_us - i) as nat, f);
                }
                match d_bool(b, cur) {
                    None => {
                        return None;
                    },
                    Some((v, nxt)) => {
                        proof {
                            let prefix = out@;
                            assert(forall|rest: Seq<bool>|
                                (prefix + seq![v]) + rest =~= prefix + (seq![v] + rest));
                        }
                        out.push(v);
                        cur = nxt;
                        i = i + 1;
                    },
                }
            }
            proof {
                assert(out@ + Seq::<bool>::empty() =~= out@);
            }
            Some((out, cur))
        },
    }
}

pub(crate) fn d_u8_list(b: &[u8], pos: usize) -> (r: Option<(Vec<u8>, usize)>)
    requires
        pos <= b@.len(),
    ensures
        (r matches Some((v, end)) ==> parse_list(b@, pos as int, parse_u8_fn()) == Some(
            (v@, end as int),
        ) && pos <= end <= b@.len()),
        r is None ==> parse_list(b@, pos as int, parse_u8_fn()) is None,
{
    let ghost f = parse_u8_fn();
    match d_u32(b, pos) {
        None => None,
        Some((n, p0)) => {
            let n_us: usize = n as usize;
            let mut out: Vec<u8> = Vec::new();
            let mut cur: usize = p0;
            let mut i: usize = 0;
            while i < n_us
                invariant
                    f == parse_u8_fn(),
                    pos <= b@.len(),
                    parse_u32(b@, pos as int) == Some((n, p0 as int)),
                    n_us == n as usize,
                    i <= n_us,
                    p0 <= cur,
                    cur <= b@.len(),
                    out@.len() == i,
                    parse_n(b@, p0 as int, n_us as nat, f) == (match parse_n(
                        b@,
                        cur as int,
                        (n_us - i) as nat,
                        f,
                    ) {
                        None => None::<(Seq<u8>, int)>,
                        Some((rest, e)) => Some((out@ + rest, e)),
                    }),
                decreases n_us - i,
            {
                proof {
                    lemma_parse_n_step(b@, cur as int, (n_us - i) as nat, f);
                }
                match d_u8(b, cur) {
                    None => {
                        return None;
                    },
                    Some((v, nxt)) => {
                        proof {
                            let prefix = out@;
                            assert(forall|rest: Seq<u8>|
                                (prefix + seq![v]) + rest =~= prefix + (seq![v] + rest));
                        }
                        out.push(v);
                        cur = nxt;
                        i = i + 1;
                    },
                }
            }
            proof {
                assert(out@ + Seq::<u8>::empty() =~= out@);
            }
            Some((out, cur))
        },
    }
}

pub(crate) fn d_u16_list(b: &[u8], pos: usize) -> (r: Option<(Vec<u16>, usize)>)
    requires
        pos <= b@.len(),
    ensures
        (r matches Some((v, end)) ==> parse_list(b@, pos as int, parse_u16_fn()) == Some(
            (v@, end as int),
        ) && pos <= end <= b@.len()),
        r is None ==> parse_list(b@, pos as int, parse_u16_fn()) is None,
{
    let ghost f = parse_u16_fn();
    match d_u32(b, pos) {
        None => None,
        Some((n, p0)) => {
            let n_us: usize = n as usize;
            let mut out: Vec<u16> = Vec::new();
            let mut cur: usize = p0;
            let mut i: usize = 0;
            while i < n_us
                invariant
                    f == parse_u16_fn(),
                    pos <= b@.len(),
                    parse_u32(b@, pos as int) == Some((n, p0 as int)),
                    n_us == n as usize,
                    i <= n_us,
                    p0 <= cur,
                    cur <= b@.len(),
                    out@.len() == i,
                    parse_n(b@, p0 as int, n_us as nat, f) == (match parse_n(
                        b@,
                        cur as int,
                        (n_us - i) as nat,
                        f,
                    ) {
                        None => None::<(Seq<u16>, int)>,
                        Some((rest, e)) => Some((out@ + rest, e)),
                    }),
                decreases n_us - i,
            {
                proof {
                    lemma_parse_n_step(b@, cur as int, (n_us - i) as nat, f);
                }
                match d_u16(b, cur) {
                    None => {
                        return None;
                    },
                    Some((v, nxt)) => {
                        proof {
                            let prefix = out@;
                            assert(forall|rest: Seq<u16>|
                                (prefix + seq![v]) + rest =~= prefix + (seq![v] + rest));
                        }
                        out.push(v);
                        cur = nxt;
                        i = i + 1;
                    },
                }
            }
            proof {
                assert(out@ + Seq::<u16>::empty() =~= out@);
            }
            Some((out, cur))
        },
    }
}

pub(crate) fn d_u64_list(b: &[u8], pos: usize) -> (r: Option<(Vec<u64>, usize)>)
    requires
        pos <= b@.len(),
    ensures
        (r matches Some((v, end)) ==> parse_list(b@, pos as int, parse_u64_fn()) == Some(
            (v@, end as int),
        ) && pos <= end <= b@.len()),
        r is None ==> parse_list(b@, pos as int, parse_u64_fn()) is None,
{
    let ghost f = parse_u64_fn();
    match d_u32(b, pos) {
        None => None,
        Some((n, p0)) => {
            let n_us: usize = n as usize;
            let mut out: Vec<u64> = Vec::new();
            let mut cur: usize = p0;
            let mut i: usize = 0;
            while i < n_us
                invariant
                    f == parse_u64_fn(),
                    pos <= b@.len(),
                    parse_u32(b@, pos as int) == Some((n, p0 as int)),
                    n_us == n as usize,
                    i <= n_us,
                    p0 <= cur,
                    cur <= b@.len(),
                    out@.len() == i,
                    parse_n(b@, p0 as int, n_us as nat, f) == (match parse_n(
                        b@,
                        cur as int,
                        (n_us - i) as nat,
                        f,
                    ) {
                        None => None::<(Seq<u64>, int)>,
                        Some((rest, e)) => Some((out@ + rest, e)),
                    }),
                decreases n_us - i,
            {
                proof {
                    lemma_parse_n_step(b@, cur as int, (n_us - i) as nat, f);
                }
                match d_u64(b, cur) {
                    None => {
                        return None;
                    },
                    Some((v, nxt)) => {
                        proof {
                            let prefix = out@;
                            assert(forall|rest: Seq<u64>|
                                (prefix + seq![v]) + rest =~= prefix + (seq![v] + rest));
                        }
                        out.push(v);
                        cur = nxt;
                        i = i + 1;
                    },
                }
            }
            proof {
                assert(out@ + Seq::<u64>::empty() =~= out@);
            }
            Some((out, cur))
        },
    }
}

pub(crate) fn d_pauli_list(b: &[u8], pos: usize) -> (r: Option<(Vec<Pauli>, usize)>)
    requires
        pos <= b@.len(),
    ensures
        (r matches Some((v, end)) ==> parse_list(b@, pos as int, parse_pauli_fn()) == Some(
            (v@, end as int),
        ) && pos <= end <= b@.len()),
        r is None ==> parse_list(b@, pos as int, parse_pauli_fn()) is None,
{
    let ghost f = parse_pauli_fn();
    match d_u32(b, pos) {
        None => None,
        Some((n, p0)) => {
            let n_us: usize = n as usize;
            let mut out: Vec<Pauli> = Vec::new();
            let mut cur: usize = p0;
            let mut i: usize = 0;
            while i < n_us
                invariant
                    f == parse_pauli_fn(),
                    pos <= b@.len(),
                    parse_u32(b@, pos as int) == Some((n, p0 as int)),
                    n_us == n as usize,
                    i <= n_us,
                    p0 <= cur,
                    cur <= b@.len(),
                    out@.len() == i,
                    parse_n(b@, p0 as int, n_us as nat, f) == (match parse_n(
                        b@,
                        cur as int,
                        (n_us - i) as nat,
                        f,
                    ) {
                        None => None::<(Seq<Pauli>, int)>,
                        Some((rest, e)) => Some((out@ + rest, e)),
                    }),
                decreases n_us - i,
            {
                proof {
                    lemma_parse_n_step(b@, cur as int, (n_us - i) as nat, f);
                }
                match d_pauli(b, cur) {
                    None => {
                        return None;
                    },
                    Some((v, nxt)) => {
                        proof {
                            let prefix = out@;
                            assert(forall|rest: Seq<Pauli>|
                                (prefix + seq![v]) + rest =~= prefix + (seq![v] + rest));
                        }
                        out.push(v);
                        cur = nxt;
                        i = i + 1;
                    },
                }
            }
            proof {
                assert(out@ + Seq::<Pauli>::empty() =~= out@);
            }
            Some((out, cur))
        },
    }
}

pub(crate) fn d_bytes_list(b: &[u8], pos: usize) -> (r: Option<(Vec<Vec<u8>>, usize)>)
    requires
        pos <= b@.len(),
    ensures
        (r matches Some((v, end)) ==> parse_list(b@, pos as int, parse_bytes_fn()) == Some(
            (crate::data::strings_view(v@), end as int),
        ) && pos <= end <= b@.len()),
        r is None ==> parse_list(b@, pos as int, parse_bytes_fn()) is None,
{
    let ghost f = parse_bytes_fn();
    match d_u32(b, pos) {
        None => None,
        Some((n, p0)) => {
            let n_us: usize = n as usize;
            let mut out: Vec<Vec<u8>> = Vec::new();
            let mut cur: usize = p0;
            let mut i: usize = 0;
            while i < n_us
                invariant
                    f == parse_bytes_fn(),
                    pos <= b@.len(),
                    parse_u32(b@, pos as int) == Some((n, p0 as int)),
                    n_us == n as usize,
                    i <= n_us,
                    p0 <= cur,
                    cur <= b@.len(),
                    out@.len() == i,
                    parse_n(b@, p0 as int, n_us as nat, f) == (match parse_n(
                        b@,
                        cur as int,
                        (n_us - i) as nat,
                        f,
                    ) {
                        None => None::<(Seq<Seq<u8>>, int)>,
                        Some((rest, e)) => Some((crate::data::strings_view(out@) + rest, e)),
                    }),
                decreases n_us - i,
            {
                proof {
                    lemma_parse_n_step(b@, cur as int, (n_us - i) as nat, f);
                }
                match d_bytes(b, cur) {
                    None => {
                        return None;
                    },
                    Some((v, nxt)) => {
                        proof {
                            let prefix = crate::data::strings_view(out@);
                            assert(crate::data::strings_view(out@.push(v)) =~= prefix + seq![v@]);
                            assert(forall|rest: Seq<Seq<u8>>|
                                (prefix + seq![v@]) + rest =~= prefix + (seq![v@] + rest));
                        }
                        out.push(v);
                        cur = nxt;
                        i = i + 1;
                    },
                }
            }
            proof {
                assert(crate::data::strings_view(out@) + Seq::<Seq<u8>>::empty() =~= crate::data::strings_view(out@));
            }
            Some((out, cur))
        },
    }
}

pub(crate) fn d_gate_type(b: &[u8], pos: usize) -> (r: Option<(GateTypeData, usize)>)
    requires
        pos <= b@.len(),
    ensures
        (r matches Some((v, end)) ==> parse_gate_type(b@, pos as int) == Some((v@, end as int))
            && pos <= end <= b@.len()),
        r is None ==> parse_gate_type(b@, pos as int) is None,
{
    match d_u8(b, pos) {
        None => None,
        Some((tag, p)) => if tag == 0 {
            match d_well_known(b, p) {
                None => None,
                Some((wk, p2)) => Some((GateTypeData::WellKnown(wk), p2)),
            }
        } else if tag == 1 {
            match d_u16(b, p) {
                None => None,
                Some((name, p2)) => match d_u8(b, p2) {
                    None => None,
                    Some((num_qubits, p3)) => match d_u8(b, p3) {
                        None => None,
                        Some((num_params, p4)) => Some(
                            (GateTypeData::Custom { name, num_qubits, num_params }, p4),
                        ),
                    },
                },
            }
        } else if tag == 2 {
            match d_pauli_list(b, p) {
                None => None,
                Some((paulis, p2)) => Some((GateTypeData::PauliProdRotation { paulis }, p2)),
            }
        } else {
            None
        },
    }
}

pub(crate) fn d_gate(b: &[u8], pos: usize) -> (r: Option<(GateData, usize)>)
    requires
        pos <= b@.len(),
    ensures
        (r matches Some((v, end)) ==> parse_gate(b@, pos as int) == Some((v@, end as int)) && pos
            <= end <= b@.len()),
        r is None ==> parse_gate(b@, pos as int) is None,
{
    match d_u8(b, pos) {
        None => None,
        Some((control_qubits, p)) => match d_bool(b, p) {
            None => None,
            Some((adjoint, p2)) => match d_u8(b, p2) {
                None => None,
                Some((power, p3)) => match d_gate_type(b, p3) {
                    None => None,
                    Some((gate_type, p4)) => Some(
                        (GateData { gate_type, control_qubits, adjoint, power }, p4),
                    ),
                },
            },
        },
    }
}

pub(crate) fn d_qubit_op(b: &[u8], pos: usize) -> (r: Option<(QubitOpData, usize)>)
    requires
        pos <= b@.len(),
    ensures
        (r matches Some((v, end)) ==> parse_qubit_op(b@, pos as int) == Some((v@, end as int))
            && pos <= end <= b@.len()),
        r is None ==> parse_qubit_op(b@, pos as int) is None,
{
    match d_u8(b, pos) {
        None => None,
        Some((tag, p)) => if tag == 0 {
            Some((QubitOpData::Alloc, p))
        } else if tag == 1 {
            Some((QubitOpData::Free, p))
        } else if tag == 2 {
            Some((QubitOpData::FreeZero, p))
        } else if tag == 3 {
            Some((QubitOpData::Measure, p))
        } else if tag == 4 {
            Some((QubitOpData::MeasureNd, p))
        } else if tag == 5 {
            Some((QubitOpData::Reset, p))
        } else if tag == 6 {
            match d_gate(b, p) {
                None => None,
                Some((g, p2)) => Some((QubitOpData::Gate(g), p2)),
            }
        } else {
            None
        },
    }
}

pub(crate) fn d_int_op(b: &[u8], pos: usize) -> (r: Option<(IntOp, usize)>)
    requires
        pos <= b@.len(),
    ensures
        (r matches Some((v, end)) ==> parse_int_op(b@, pos as int) == Some((v, end as int)) && pos
            <= end <= b@.len()),
        r is None ==> parse_int_op(b@, pos as int) is None,
{
    match d_u8(b, pos) {
        None => None,
        Some((tag, p)) => if tag == 0 {
            match d_bool(b, p) {
                None => None,
                Some((v, p2)) => Some((IntOp::Const1(v), p2)),
            }
        } else if tag == 1 {
            match d_u8(b, p) {
                None => None,
                Some((v, p2)) => Some((IntOp::Const8(v), p2)),
            }
        } else if tag == 2 {
            match d_u16(b, p) {
                None => None,
                Some((v, p2)) => Some((IntOp::Const16(v), p2)),
            }
        } else if tag == 3 {
            match d_u32(b, p) {
                None => None,
                Some((v, p2)) => Some((IntOp::Const32(v), p2)),
            }
        } else if tag == 4 {
            match d_u64(b, p) {
                None => None,
                Some((v, p2)) => Some((IntOp::Const64(v), p2)),
            }
        } else if tag == 5 {
            Some((IntOp::Add, p))
        } else if tag == 6 {
            Some((IntOp::Sub, p))
        } else if tag == 7 {
            Some((IntOp::Mul, p))
        } else if tag == 8 {
            Some((IntOp::DivS, p))
        } else if tag == 9 {
            Some((IntOp::DivU, p))
        } else if tag == 10 {
            Some((IntOp::Pow, p))
        } else if tag == 11 {
            Some((IntOp::And, p))
        } else if tag == 12 {
            Some((IntOp::Or, p))
        } else if tag == 13 {
            Some((IntOp::Xor, p))
        } else if tag == 14 {
            Some((IntOp::Not, p))
        } else if tag == 15 {
            Some((IntOp::MinS, p))
        } else if tag == 16 {
            Some((IntOp::MinU, p))
        } else if tag == 17 {
            Some((IntOp::MaxS, p))
        } else if tag == 18 {
            Some((IntOp::MaxU, p))
        } else if tag == 19 {
            Some((IntOp::Eq, p))
        } else if tag == 20 {
            Some((IntOp::LtS, p))
        } else if tag == 21 {
            Some((IntOp::LteS, p))
        } else if tag == 22 {
            Some((IntOp::LtU, p))
        } else if tag == 23 {
            Some((IntOp::LteU, p))
        } else if tag == 24 {
            Some((IntOp::Abs, p))
        } else if tag == 25 {
            Some((IntOp::RemS, p))
        } else if tag == 26 {
            Some((IntOp::RemU, p))
        } else if tag == 27 {
            Some((IntOp::Shl, p))
        } else if tag == 28 {
            Some((IntOp::Shr, p))
        } else {
            None
        },
    }
}

pub(crate) fn d_int_array_op(b: &[u8], pos: usize) -> (r: Option<(IntArrayOpData, usize)>)
    requires
        pos <= b@.len(),
    ensures
        (r matches Some((v, end)) ==> parse_int_array_op(b@, pos as int) == Some((v@, end as int))
            && pos <= end <= b@.len()),
        r is None ==> parse_int_array_op(b@, pos as int) is None,
{
    match d_u8(b, pos) {
        None => None,
        Some((tag, p)) => if tag == 0 {
            match d_bool_list(b, p) {
                None => None,
                Some((v, p2)) => Some((IntArrayOpData::ConstArray1(v), p2)),
            }
        } else if tag == 1 {
            match d_u8_list(b, p) {
                None => None,
                Some((v, p2)) => Some((IntArrayOpData::ConstArray8(v), p2)),
            }
        } else if tag == 2 {
            match d_u16_list(b, p) {
                None => None,
                Some((v, p2)) => Some((IntArrayOpData::ConstArray16(v), p2)),
            }
        } else if tag == 3 {
            match d_u32_list(b, p) {
                None => None,
                Some((v, p2)) => Some((IntArrayOpData::ConstArray32(v), p2)),
            }
        } else if tag == 4 {
            match d_u64_list(b, p) {
                None => None,
                Some((v, p2)) => Some((IntArrayOpData::ConstArray64(v), p2)),
            }
        } else if tag == 5 {
            match d_u8(b, p) {
                None => None,
                Some((bits, p2)) => Some((IntArrayOpData::Zero { bits }, p2)),
            }
        } else if tag == 6 {
            Some((IntArrayOpData::GetIndex, p))
        } else if tag == 7 {
            Some((IntArrayOpData::SetIndex, p))
        } else if tag == 8 {
            Some((IntArrayOpData::Length, p))
        } else if tag == 9 {
            Some((IntArrayOpData::Create, p))
        } else {
            None
        },
    }
}

pub(crate) fn d_float_op(b: &[u8], pos: usize) -> (r: Option<(FloatOp, usize)>)
    requires
        pos <= b@.len(),
    ensures
        (r matches Some((v, end)) ==> parse_float_op(b@, pos as int) == Some((v, end as int))
            && pos <= end <= b@.len()),
        r is None ==> parse_float_op(b@, pos as int) is None,
{
    match d_u8(b, pos) {
        None => None,
        Some((tag, p)) => if tag == 0 {
            match d_u32(b, p) {
                None => None,
                Some((v, p2)) => Some((FloatOp::Const32(v), p2)),
            }
        } else if tag == 1 {
            match d_u64(b, p) {
                None => None,
                Some((v, p2)) => Some((FloatOp::Const64(v), p2)),
            }
        } else if tag == 2 {
            Some((FloatOp::Add, p))
        } else if tag == 3 {
            Some((FloatOp::Sub, p))
        } else if tag == 4 {
            Some((FloatOp::Mul, p))
        } else if tag == 5 {
            Some((FloatOp::Pow, p))
        } else if tag == 6 {
            Some((FloatOp::Eq, p))
        } else if tag == 7 {
            Some((FloatOp::Lt, p))
        } else if tag == 8 {
            Some((FloatOp::Lte, p))
        } else if tag == 9 {
            Some((FloatOp::Sqrt, p))
        } else if tag == 10 {
            Some((FloatOp::Abs, p))
        } else if tag == 11 {
            Some((FloatOp::Ceil, p))
        } else if tag == 12 {
            Some((FloatOp::Floor, p))
        } else if tag == 13 {
            Some((FloatOp::IsNan, p))
        } else if tag == 14 {
            Some((FloatOp::IsInf, p))
        } else if tag == 15 {
            Some((FloatOp::Exp, p))
        } else if tag == 16 {
            Some((FloatOp::Log, p))
        } else if tag == 17 {
            Some((FloatOp::Sin, p))
        } else if tag == 18 {
            Some((FloatOp::Cos, p))
        } else if tag == 19 {
            Some((FloatOp::Tan, p))
        } else if tag == 20 {
            Some((FloatOp::Asin, p))
        } else if tag == 21 {
            Some((FloatOp::Acos, p))
        } else if tag == 22 {
            Some((FloatOp::Atan, p))
        } else if tag == 23 {
            Some((FloatOp::Atan2, p))
        } else if tag == 24 {
            Some((FloatOp::Sinh, p))
        } else if tag == 25 {
            Some((FloatOp::Cosh, p))
        } else if tag == 26 {
            Some((FloatOp::Tanh, p))
        } else if tag == 27 {
            Some((FloatOp::Asinh, p))
        } else if tag == 28 {
            Some((FloatOp::Acosh, p))
        } else if tag == 29 {
            Some((FloatOp::Atanh, p))
        } else if tag == 30 {
            Some((FloatOp::Max, p))
        } else if tag == 31 {
            Some((FloatOp::Min, p))
        } else {
            None
        },
    }
}

pub(crate) fn d_float_array_op(b: &[u8], pos: usize) -> (r: Option<(FloatArrayOpData, usize)>)
    requires
        pos <= b@.len(),
    ensures
        (r matches Some((v, end)) ==> parse_float_array_op(b@, pos as int) == Some(
            (v@, end as int),
        ) && pos <= end <= b@.len()),
        r is None ==> parse_float_array_op(b@, pos as int) is None,
{
    match d_u8(b, pos) {
        None => None,
        Some((tag, p)) => if tag == 0 {
            match d_u32_list(b, p) {
                None => None,
                Some((v, p2)) => Some((FloatArrayOpData::Const32(v), p2)),
            }
        } else if tag == 1 {
            match d_u64_list(b, p) {
                None => None,
                Some((v, p2)) => Some((FloatArrayOpData::Const64(v), p2)),
            }
        } else if tag == 2 {
            match d_prec(b, p) {
                None => None,
                Some((precision, p2)) => Some((FloatArrayOpData::Zero { precision }, p2)),
            }
        } else if tag == 3 {
            Some((FloatArrayOpData::GetIndex, p))
        } else if tag == 4 {
            Some((FloatArrayOpData::SetIndex, p))
        } else if tag == 5 {
            Some((FloatArrayOpData::Length, p))
        } else if tag == 6 {
            Some((FloatArrayOpData::Create, p))
        } else {
            None
        },
    }
}

pub(crate) fn d_opt_u32(b: &[u8], pos: usize) -> (r: Option<(Option<u32>, usize)>)
    requires
        pos <= b@.len(),
    ensures
        (r matches Some((v, end)) ==> parse_opt_u32(b@, pos as int) == Some((v, end as int))
            && pos <= end <= b@.len()),
        r is None ==> parse_opt_u32(b@, pos as int) is None,
{
    match d_u8(b, pos) {
        None => None,
        Some((tag, p)) => if tag == 0 {
            Some((None, p))
        } else if tag == 1 {
            match d_u32(b, p) {
                None => None,
                Some((v, p2)) => Some((Some(v), p2)),
            }
        } else {
            None
        },
    }
}

pub(crate) fn d_control_flow(b: &[u8], pos: usize) -> (r: Option<(ControlFlowData, usize)>)
    requires
        pos <= b@.len(),
    ensures
        (r matches Some((v, end)) ==> parse_control_flow(b@, pos as int) == Some((v@, end as int))
            && pos <= end <= b@.len()),
        r is None ==> parse_control_flow(b@, pos as int) is None,
{
    match d_u8(b, pos) {
        None => None,
        Some((tag, p)) => if tag == 0 {
            match d_u32_list(b, p) {
                None => None,
                Some((branches, p2)) => match d_opt_u32(b, p2) {
                    None => None,
                    Some((default, p3)) => Some(
                        (ControlFlowData::Switch { branches, default }, p3),
                    ),
                },
            }
        } else if tag == 1 {
            match d_u32(b, p) {
                None => None,
                Some((region, p2)) => Some((ControlFlowData::For { region }, p2)),
            }
        } else if tag == 2 {
            match d_u32(b, p) {
                None => None,
                Some((condition, p2)) => match d_u32(b, p2) {
                    None => None,
                    Some((body, p3)) => Some((ControlFlowData::While { condition, body }, p3)),
                },
            }
        } else if tag == 3 {
            match d_u32(b, p) {
                None => None,
                Some((body, p2)) => match d_u32(b, p2) {
                    None => None,
                    Some((condition, p3)) => Some(
                        (ControlFlowData::DoWhile { body, condition }, p3),
                    ),
                },
            }
        } else {
            None
        },
    }
}

pub(crate) fn d_op_type(b: &[u8], pos: usize) -> (r: Option<(OpTypeData, usize)>)
    requires
        pos <= b@.len(),
    ensures
        (r matches Some((v, end)) ==> parse_op_type(b@, pos as int) == Some((v@, end as int))
            && pos <= end <= b@.len()),
        r is None ==> parse_op_type(b@, pos as int) is None,
{
    match d_u8(b, pos) {
        None => None,
        Some((tag, p)) => if tag == 0 {
            match d_qubit_op(b, p) {
                None => None,
                Some((q, p2)) => Some((OpTypeData::QubitOp(q), p2)),
            }
        } else if tag == 1 {
            match d_qureg_op(b, p) {
                None => None,
                Some((q, p2)) => Some((OpTypeData::QubitRegisterOp(q), p2)),
            }
        } else if tag == 2 {
            match d_int_op(b, p) {
                None => None,
                Some((o, p2)) => Some((OpTypeData::IntOp(o), p2)),
            }
        } else if tag == 3 {
            match d_int_array_op(b, p) {
                None => None,
                Some((o, p2)) => Some((OpTypeData::IntArrayOp(o), p2)),
            }
        } else if tag == 4 {
            match d_float_op(b, p) {
                None => None,
                Some((o, p2)) => Some((OpTypeData::FloatOp(o), p2)),
            }
        } else if tag == 5 {
            match d_float_array_op(b, p) {
                None => None,
                Some((o, p2)) => Some((OpTypeData::FloatArrayOp(o), p2)),
            }
        } else if tag == 6 {
            match d_control_flow(b, p) {
                None => None,
                Some((cf, p2)) => Some((OpTypeData::ControlFlowOp(cf), p2)),
            }
        } else if tag == 7 {
            match d_u32(b, p) {
                None => None,
                Some((func_idx, p2)) => Some((OpTypeData::FuncOp(FuncOp { func_idx }), p2)),
            }
        } else {
            None
        },
    }
}

pub(crate) fn d_op(b: &[u8], pos: usize) -> (r: Option<(OpData, usize)>)
    requires
        pos <= b@.len(),
    ensures
        (r matches Some((v, end)) ==> parse_op(b@, pos as int) == Some((v@, end as int)) && pos
            <= end <= b@.len()),
        r is None ==> parse_op(b@, pos as int) is None,
{
    match d_op_type(b, pos) {
        None => None,
        Some((op_type, p)) => match d_u32_list(b, p) {
            None => None,
            Some((inputs, p2)) => match d_u32_list(b, p2) {
                None => None,
                Some((outputs, p3)) => match d_metas(b, p3) {
                    None => None,
                    Some((metadata, p4)) => Some(
                        (OpData { op_type, inputs, outputs, metadata }, p4),
                    ),
                },
            },
        },
    }
}

pub(crate) fn d_region(b: &[u8], pos: usize) -> (r: Option<(RegionData, usize)>)
    requires
        pos <= b@.len(),
    ensures
        (r matches Some((v, end)) ==> parse_region(b@, pos as int) == Some((v@, end as int))
            && pos <= end <= b@.len()),
        r is None ==> parse_region(b@, pos as int) is None,
{
    match d_u32_list(b, pos) {
        None => None,
        Some((sources, p)) => match d_u32_list(b, p) {
            None => None,
            Some((targets, p2)) => match d_ops(b, p2) {
                None => None,
                Some((operations, p3)) => match d_metas(b, p3) {
                    None => None,
                    Some((metadata, p4)) => Some(
                        (RegionData { sources, targets, operations, metadata }, p4),
                    ),
                },
            },
        },
    }
}

pub(crate) fn d_function(b: &[u8], pos: usize) -> (r: Option<(FunctionData, usize)>)
    requires
        pos <= b@.len(),
    ensures
        (r matches Some((v, end)) ==> parse_function(b@, pos as int) == Some((v@, end as int))
            && pos <= end <= b@.len()),
        r is None ==> parse_function(b@, pos as int) is None,
{
    match d_u8(b, pos) {
        None => None,
        Some((tag, p)) => if tag == 0 {
            match d_u16(b, p) {
                None => None,
                Some((name, p2)) => match d_values(b, p2) {
                    None => None,
                    Some((values, p3)) => match d_regions(b, p3) {
                        None => None,
                        Some((regions, p4)) => match d_metas(b, p4) {
                            None => None,
                            Some((metadata, p5)) => Some(
                                (
                                    FunctionData::Definition(
                                        DefinitionData { name, values, regions, metadata },
                                    ),
                                    p5,
                                ),
                            ),
                        },
                    },
                },
            }
        } else if tag == 1 {
            match d_u16(b, p) {
                None => None,
                Some((name, p2)) => match d_values(b, p2) {
                    None => None,
                    Some((inputs, p3)) => match d_values(b, p3) {
                        None => None,
                        Some((outputs, p4)) => match d_metas(b, p4) {
                            None => None,
                            Some((metadata, p5)) => Some(
                                (
                                    FunctionData::Declaration(
                                        DeclarationData { name, inputs, outputs, metadata },
                                    ),
                                    p5,
                                ),
                            ),
                        },
                    },
                },
            }
        } else {
            None
        },
    }
}

/// Decodes one module message starting at `pos`.
pub(crate) fn d_module(b: &[u8], pos: usize) -> (r: Option<(ModuleData, usize)>)
    requires
        pos <= b@.len(),
    ensures
        (r matches Some((v, end)) ==> parse_module(b@, pos as int) == Some((v@, end as int))
            && pos <= end <= b@.len()),
        r is None ==> parse_module(b@, pos as int) is None,
{
    if b.len() - pos < 4 {
        return None;
    }
    if !(b[pos] == 0x6a && b[pos + 1] == 0x65 && b[pos + 2] == 0x66 && b[pos + 3] == 0x66) {
        proof {
            let sub = b@.subrange(pos as int, pos as int + 4);
            assert(sub[0] == b@[pos as int]);
            assert(sub[1] == b@[pos as int + 1]);
            assert(sub[2] == b@[pos as int + 2]);
            assert(sub[3] == b@[pos as int + 3]);
            assert(magic()[0] == 0x6au8);
            assert(magic()[1] == 0x65u8);
            assert(magic()[2] == 0x66u8);
            assert(magic()[3] == 0x66u8);
            assert(sub != magic());
        }
        return None;
    }
    proof {
        let sub = b@.subrange(pos as int, pos as int + 4);
        assert(sub =~= magic());
    }
    match d_u32(b, pos + 4) {
        None => None,
        Some((version, p)) => match d_bytes(b, p) {
            None => None,
            Some((tool, p2)) => match d_bytes(b, p2) {
                None => None,
                Some((tool_version, p3)) => match d_u32(b, p3) {
                    None => None,
                    Some((entrypoint, p4)) => match d_bytes_list(b, p4) {
                        None => None,
                        Some((strings, p5)) => match d_functions(b, p5) {
                            None => None,
                            Some((functions, p6)) => match d_metas(b, p6) {
                                None => None,
                                Some((metadata, p7)) => Some(
                                    (
                                        ModuleData {
                                            version,
                                            tool,
                                            tool_version,
                                            entrypoint,
                                            strings,
                                            functions,
                                            metadata,
                                        },
                                        p7,
                                    ),
                                ),
                            },
                        },
                    },
                },
            },
        },
    }
}

#[verifier::rlimit(80)]
pub(crate) fn d_ops(b: &[u8], pos: usize) -> (r: Option<(Vec<OpData>, usize)>)
    requires
        pos <= b@.len(),
    ensures
        (r matches Some((v, end)) ==> parse_list(b@, pos as int, parse_op_fn()) == Some(
            (crate::data::ops_view(v@), end as int),
        ) && pos <= end <= b@.len()),
        r is None ==> parse_list(b@, pos as int, parse_op_fn()) is None,
{
    let ghost f = parse_op_fn();
    match d_u32(b, pos) {
        None => None,
        Some((n, p0)) => {
            let n_us: usize = n as usize;
            let mut out: Vec<OpData> = Vec::new();
            let mut cur: usize = p0;
            let mut i: usize = 0;
            while i < n_us
                invariant
                    f == parse_op_fn(),
                    pos <= b@.len(),
                    parse_u32(b@, pos as int) == Some((n, p0 as int)),
                    n_us == n as usize,
                    i <= n_us,
                    p0 <= cur,
                    cur <= b@.len(),
                    out@.len() == i,
                    parse_n(b@, p0 as int, n_us as nat, f) == (match parse_n(
                        b@,
                        cur as int,
                        (n_us - i) as nat,
                        f,
                    ) {
                        None => None::<(Seq<crate::model::OpModel>, int)>,
                        Some((rest, e)) => Some((crate::data::ops_view(out@) + rest, e)),
                    }),
                decreases n_us - i,
            {
                proof {
                    lemma_parse_n_step(b@, cur as int, (n_us - i) as nat, f);
                }
                match d_op(b, cur) {
                    None => {
                        return None;
                    },
                    Some((v, nxt)) => {
                        proof {
                            let prefix = crate::data::ops_view(out@);
                            assert(crate::data::ops_view(out@.push(v)) =~= prefix + seq![v@]);
                            assert(forall|rest: Seq<crate::model::OpModel>|
                                (prefix + seq![v@]) + rest =~= prefix + (seq![v@] + rest));
                        }
                        out.push(v);
                        cur = nxt;
                        i = i + 1;
                    },
                }
            }
            proof {
                assert(crate::data::ops_view(out@) + Seq::<crate::model::OpModel>::empty() =~= crate::data::ops_view(out@));
            }
            Some((out, cur))
        },
    }
}

#[verifier::rlimit(80)]
pub(crate) fn d_regions(b: &[u8], pos: usize) -> (r: Option<(Vec<RegionData>, usize)>)
    requires
        pos <= b@.len(),
    ensures
        (r matches Some((v, end)) ==> parse_list(b@, pos as int, parse_region_fn()) == Some(
            (crate::data::regions_view(v@), end as int),
        ) && pos <= end <= b@.len()),
        r is None ==> parse_list(b@, pos as int, parse_region_fn()) is None,
{
    let ghost f = parse_region_fn();
    match d_u32(b, pos) {
        None => None,
        Some((n, p0)) => {
            let n_us: usize = n as usize;
            let mut out: Vec<RegionData> = Vec::new();
            let mut cur: usize = p0;
            let mut i: usize = 0;
            while i < n_us
                invariant
                    f == parse_region_fn(),
                    pos <= b@.len(),
                    parse_u32(b@, pos as int) == Some((n, p0 as int)),
                    n_us == n as usize,
                    i <= n_us,
                    p0 <= cur,
                    cur <= b@.len(),
                    out@.len() == i,
                    parse_n(b@, p0 as int, n_us as nat, f) == (match parse_n(
                        b@,
                        cur as int,
                        (n_us - i) as nat,
                        f,
                    ) {
                        None => None::<(Seq<crate::model::RegionModel>, int)>,
                        Some((rest, e)) => Some((crate::data::regions_view(out@) + rest, e)),
                    }),
                decreases n_us - i,
            {
                proof {
                    lemma_parse_n_step(b@, cur as int, (n_us - i) as nat, f);
                }
                match d_region(b, cur) {
                    None => {
                        return None;
                    },
                    Some((v, nxt)) => {
                        proof {
                            let prefix = crate::data::regions_view(out@);
                            assert(crate::data::regions_view(out@.push(v)) =~= prefix + seq![v@]);
                            assert(forall|rest: Seq<crate::model::RegionModel>|
                                (prefix + seq![v@]) + rest =~= prefix + (seq![v@] + rest));
                        }
                        out.push(v);
                        cur = nxt;
                        i = i + 1;
                    },
                }
            }
            proof {
                assert(crate::data::regions_view(out@) + Seq::<crate::model::RegionModel>::empty() =~= crate::data::regions_view(out@));
            }
            Some((out, cur))
        },
    }
}

#[verifier::rlimit(80)]
pub(crate) fn d_functions(b: &[u8], pos: usize) -> (r: Option<(Vec<FunctionData>, usize)>)
    requires
        pos <= b@.len(),
    ensures
        (r matches Some((v, end)) ==> parse_list(b@, pos as int, parse_function_fn()) == Some(
            (crate::data::functions_view(v@), end as int),
        ) && pos <= end <= b@.len()),
        r is None ==> parse_list(b@, pos as int, parse_function_fn()) is None,
{
    let ghost f = parse_function_fn();
    match d_u32(b, pos) {
        None => None,
        Some((n, p0)) => {
            let n_us: usize = n as usize;
            let mut out: Vec<FunctionData> = Vec::new();
            let mut cur: usize = p0;
            let mut i: usize = 0;
            while i < n_us
                invariant
                    f == parse_function_fn(),
                    pos <= b@.len(),
                    parse_u32(b@, pos as int) == Some((n, p0 as int)),
                    n_us == n as usize,
                    i <= n_us,
                    p0 <= cur,
                    cur <= b@.len(),
                    out@.len() == i,
                    parse_n(b@, p0 as int, n_us as nat, f) == (match parse_n(
                        b@,
                        cur as int,
                        (n_us - i) as nat,
                        f,
                    ) {
                        None => None::<(Seq<crate::model::FunctionModel>, int)>,
                        Some((rest, e)) => Some((crate::data::functions_view(out@) + rest, e)),
                    }),
                decreases n_us - i,
            {
                proof {
                    lemma_parse_n_step(b@, cur as int, (n_us - i) as nat, f);
                }
                match d_function(b, cur) {
                    None => {
                        return None;
                    },
                    Some((v, nxt)) => {
                        proof {
                            let prefix = crate::data::functions_view(out@);
                            assert(crate::data::functions_view(out@.push(v)) =~= prefix + seq![v@]);
                            assert(forall|rest: Seq<crate::model::FunctionModel>|
                                (prefix + seq![v@]) + rest =~= prefix + (seq![v@] + rest));
                        }
                        out.push(v);
                        cur = nxt;
                        i = i + 1;
                    },
                }
            }
            proof {
                assert(crate::data::functions_view(out@) + Seq::<crate::model::FunctionModel>::empty() =~= crate::data::functions_view(out@));
            }
            Some((out, cur))
        },
    }
}

} // verus!
