//! Parsing inverts encoding.
//!
//! For every wire-format component, parsing a buffer that holds its encoding
//! at some position yields exactly the encoded value. The public lemmas at
//! the end state the two load laws: a buffer carrying the encoding of a
//! well-formed module at the supported schema version loads to exactly that
//! module, and one carrying any other version fails with
//! [`crate::JeffError::InvalidVersion`] naming that version.

use vstd::prelude::*;

use crate::model::count_limit;
use crate::model::function_bounded;
use crate::model::gate_bounded;
use crate::model::gate_type_bounded;
use crate::model::meta_bounded;
use crate::model::metas_bounded;
use crate::model::module_bounded;
use crate::model::module_wf;
use crate::model::op_bounded;
use crate::model::op_type_bounded;
use crate::model::region_bounded;
use crate::model::value_bounded;
use crate::model::values_bounded;
use crate::model::ControlFlowModel;
use crate::model::FloatArrayOpModel;
use crate::model::FunctionModel;
use crate::model::GateModel;
use crate::model::GateTypeModel;
use crate::model::IntArrayOpModel;
use crate::model::MetaModel;
use crate::model::ModuleModel;
use crate::model::OpModel;
use crate::model::OpTypeModel;
use crate::model::QubitOpModel;
use crate::model::RegionModel;
use crate::model::ValueModel;
use crate::reader::optype::qubit::Pauli;
use crate::reader::optype::qubit::WellKnownGate;
use crate::reader::optype::qubit::QubitRegisterOp;
use crate::reader::optype::FloatOp;
use crate::reader::optype::IntOp;
use crate::spec_load;
use crate::types::FloatPrecision;
use crate::types::Type;
use crate::wire::concat_map;
use crate::wire::enc_bool;
use crate::wire::enc_bool_fn;
use crate::wire::enc_bytes;
use crate::wire::enc_bytes_fn;
use crate::wire::enc_control_flow;
use crate::wire::enc_float_array_op;
use crate::wire::enc_float_op;
use crate::wire::enc_function;
use crate::wire::enc_function_fn;
use crate::wire::enc_gate;
use crate::wire::enc_gate_type;
use crate::wire::enc_int_array_op;
use crate::wire::enc_int_op;
use crate::wire::enc_list;
use crate::wire::enc_meta;
use crate::wire::enc_meta_fn;
use crate::wire::enc_metas;
use crate::wire::enc_module;
use crate::wire::enc_op;
use crate::wire::enc_op_fn;
use crate::wire::enc_op_type;
use crate::wire::enc_opt_u32;
use crate::wire::enc_pauli;
use crate::wire::enc_pauli_fn;
use crate::wire::enc_qubit_op;
use crate::wire::enc_region;
use crate::wire::enc_region_fn;
use crate::wire::enc_type;
use crate::wire::enc_u16;
use crate::wire::enc_u16_fn;
use crate::wire::enc_u32;
use crate::wire::enc_u32_fn;
use crate::wire::enc_u64;
use crate::wire::enc_u64_fn;
use crate::wire::enc_u8;
use crate::wire::enc_u8_fn;
use crate::wire::enc_value;
use crate::wire::enc_value_fn;
use crate::wire::magic;
use crate::wire::parse_bool;
use crate::wire::parse_bool_fn;
use crate::wire::parse_bytes;
use crate::wire::parse_bytes_fn;
use crate::wire::parse_control_flow;
use crate::wire::parse_float_array_op;
use crate::wire::parse_float_op;
use crate::wire::parse_function;
use crate::wire::parse_function_fn;
use crate::wire::parse_gate;
use crate::wire::parse_gate_type;
use crate::wire::parse_int_array_op;
use crate::wire::parse_int_op;
use crate::wire::parse_list;
use crate::wire::parse_meta;
use crate::wire::parse_meta_fn;
use crate::wire::parse_metas;
use crate::wire::parse_module;
use crate::wire::parse_n;
use crate::wire::parse_op;
use crate::wire::parse_op_fn;
use crate::wire::parse_op_type;
use crate::wire::parse_opt_u32;
use crate::wire::parse_pauli;
use crate::wire::parse_pauli_fn;
use crate::wire::parse_prec;
use crate::wire::parse_qubit_op;
use crate::wire::parse_qureg_op;
use crate::wire::parse_region;
use crate::wire::parse_region_fn;
use crate::wire::parse_type;
use crate::wire::parse_u16;
use crate::wire::parse_u16_fn;
use crate::wire::parse_u32;
use crate::wire::parse_u32_fn;
use crate::wire::parse_u64;
use crate::wire::parse_u64_fn;
use crate::wire::parse_u8;
use crate::wire::parse_u8_fn;
use crate::wire::parse_value;
use crate::wire::parse_value_fn;
use crate::wire::parse_well_known;
use crate::wire::prec_code;
use crate::wire::qureg_code;
use crate::wire::well_known_code;
use crate::JeffError;
use crate::SCHEMA_VERSION;

verus! {

/// Wherever the buffer holds `g(x)`, the parser `f` reads back exactly `x`.
pub open spec fn inverts_at<T>(
    b: Seq<u8>,
    f: spec_fn(Seq<u8>, int) -> Option<(T, int)>,
    g: spec_fn(T) -> Seq<u8>,
    x: T,
) -> bool {
    forall|pos: int|
        0 <= pos && pos + g(x).len() <= b.len() && b.subrange(pos, pos + g(x).len() as int) == g(
            x,
        ) ==> #[trigger] f(b, pos) == Some((x, pos + g(x).len() as int))
}

/// A buffer that holds a concatenation at a position holds each part, at
/// consecutive positions.
proof fn lemma_sub_split(b: Seq<u8>, pos: int, a: Seq<u8>, c: Seq<u8>)
    requires
        0 <= pos,
        pos + a.len() + c.len() <= b.len(),
        b.subrange(pos, pos + a.len() + c.len()) == a + c,
    ensures
        b.subrange(pos, pos + a.len() as int) == a,
        b.subrange(pos + a.len() as int, pos + a.len() + c.len()) == c,
{
    assert(b.subrange(pos, pos + a.len() as int) =~= a);
    assert forall|i: int| 0 <= i < c.len() implies b.subrange(
        pos + a.len() as int,
        pos + a.len() + c.len(),
    )[i] == c[i] by {
        let full = b.subrange(pos, pos + a.len() + c.len());
        assert(full[a.len() + i] == (a + c)[a.len() + i]);
        assert((a + c)[a.len() + i] == c[i]);
        assert(full[a.len() + i] == b[pos + a.len() + i]);
        assert(b.subrange(pos + a.len() as int, pos + a.len() + c.len())[i] == b[pos + a.len()
            + i]);
    }
    assert(b.subrange(pos + a.len() as int, pos + a.len() + c.len()) =~= c);
}

proof fn lemma_u8_rt(b: Seq<u8>, pos: int, v: u8)
    requires
        0 <= pos,
        pos + 1 <= b.len(),
        b.subrange(pos, pos + 1) == enc_u8(v),
    ensures
        parse_u8(b, pos) == Some((v, pos + 1)),
{
    assert(b[pos] == b.subrange(pos, pos + 1)[0]);
}

proof fn lemma_bool_rt(b: Seq<u8>, pos: int, v: bool)
    requires
        0 <= pos,
        pos + 1 <= b.len(),
        b.subrange(pos, pos + 1) == enc_bool(v),
    ensures
        parse_bool(b, pos) == Some((v, pos + 1)),
{
    assert(b[pos] == b.subrange(pos, pos + 1)[0]);
}

proof fn lemma_u16_rt(b: Seq<u8>, pos: int, v: u16)
    requires
        0 <= pos,
        pos + 2 <= b.len(),
        b.subrange(pos, pos + 2) == enc_u16(v),
    ensures
        parse_u16(b, pos) == Some((v, pos + 2)),
{
    assert(b[pos] == b.subrange(pos, pos + 2)[0]);
    assert(b[pos + 1] == b.subrange(pos, pos + 2)[1]);
    assert((((v & 0xff) as u8) as u16 | ((((v >> 8) & 0xff) as u8) as u16) << 8) == v)
        by (bit_vector);
}

proof fn lemma_u32_rt(b: Seq<u8>, pos: int, v: u32)
    requires
        0 <= pos,
        pos + 4 <= b.len(),
        b.subrange(pos, pos + 4) == enc_u32(v),
    ensures
        parse_u32(b, pos) == Some((v, pos + 4)),
{
    assert(b[pos] == b.subrange(pos, pos + 4)[0]);
    assert(b[pos + 1] == b.subrange(pos, pos + 4)[1]);
    assert(b[pos + 2] == b.subrange(pos, pos + 4)[2]);
    assert(b[pos + 3] == b.subrange(pos, pos + 4)[3]);
    assert((((v & 0xff) as u8) as u32 | ((((v >> 8) & 0xff) as u8) as u32) << 8 | ((((v >> 16)
        & 0xff) as u8) as u32) << 16 | ((((v >> 24) & 0xff) as u8) as u32) << 24) == v)
        by (bit_vector);
}

proof fn lemma_u64_rt(b: Seq<u8>, pos: int, v: u64)
    requires
        0 <= pos,
        pos + 8 <= b.len(),
        b.subrange(pos, pos + 8) == enc_u64(v),
    ensures
        parse_u64(b, pos) == Some((v, pos + 8)),
{
    assert(b[pos] == b.subrange(pos, pos + 8)[0]);
    assert(b[pos + 1] == b.subrange(pos, pos + 8)[1]);
    assert(b[pos + 2] == b.subrange(pos, pos + 8)[2]);
    assert(b[pos + 3] == b.subrange(pos, pos + 8)[3]);
    assert(b[pos + 4] == b.subrange(pos, pos + 8)[4]);
    assert(b[pos + 5] == b.subrange(pos, pos + 8)[5]);
    assert(b[pos + 6] == b.subrange(pos, pos + 8)[6]);
    assert(b[pos + 7] == b.subrange(pos, pos + 8)[7]);
    assert((((v & 0xff) as u8) as u64 | ((((v >> 8) & 0xff) as u8) as u64) << 8 | ((((v >> 16)
        & 0xff) as u8) as u64) << 16 | ((((v >> 24) & 0xff) as u8) as u64) << 24 | ((((v >> 32)
        & 0xff) as u8) as u64) << 32 | ((((v >> 40) & 0xff) as u8) as u64) << 40 | ((((v >> 48)
        & 0xff) as u8) as u64) << 48 | ((((v >> 56) & 0xff) as u8) as u64) << 56) == v)
        by (bit_vector);
}

proof fn lemma_bytes_rt(b: Seq<u8>, pos: int, s: Seq<u8>)
    requires
        s.len() < count_limit(),
        0 <= pos,
        pos + enc_bytes(s).len() <= b.len(),
        b.subrange(pos, pos + enc_bytes(s).len() as int) == enc_bytes(s),
    ensures
        parse_bytes(b, pos) == Some((s, pos + enc_bytes(s).len() as int)),
{
    lemma_sub_split(b, pos, enc_u32(s.len() as u32), s);
    lemma_u32_rt(b, pos, s.len() as u32);
}

/// Parsing `items.len()` elements from the concatenation of their encodings
/// yields `items`.
proof fn lemma_parse_n_of_concat<T>(
    b: Seq<u8>,
    pos: int,
    items: Seq<T>,
    f: spec_fn(Seq<u8>, int) -> Option<(T, int)>,
    g: spec_fn(T) -> Seq<u8>,
)
    requires
        0 <= pos,
        pos + concat_map(items, g).len() <= b.len(),
        b.subrange(pos, pos + concat_map(items, g).len() as int) == concat_map(items, g),
        forall|k: int| 0 <= k < items.len() ==> inverts_at(b, f, g, #[trigger] items[k]),
    ensures
        parse_n(b, pos, items.len() as nat, f) == Some(
            (items, pos + concat_map(items, g).len() as int),
        ),
    decreases items.len(),
{
    if items.len() == 0 {
        assert(items =~= Seq::<T>::empty());
    } else {
        let e0 = g(items[0]);
        let tail = items.drop_first();
        let restenc = concat_map(tail, g);
        lemma_sub_split(b, pos, e0, restenc);
        assert(inverts_at(b, f, g, items[0]));
        assert(f(b, pos) == Some((items[0], pos + e0.len() as int)));
        assert(forall|k: int|
            0 <= k < tail.len() ==> inverts_at(b, f, g, #[trigger] tail[k])) by {
            assert(forall|k: int| 0 <= k < tail.len() ==> tail[k] == items[k + 1]);
        }
        lemma_parse_n_of_concat(b, pos + e0.len() as int, tail, f, g);
        assert(seq![items[0]] + tail =~= items);
    }
}

/// Parsing a list from its encoding yields the encoded elements.
proof fn lemma_list_rt<T>(
    b: Seq<u8>,
    pos: int,
    items: Seq<T>,
    f: spec_fn(Seq<u8>, int) -> Option<(T, int)>,
    g: spec_fn(T) -> Seq<u8>,
)
    requires
        items.len() < count_limit(),
        0 <= pos,
        pos + enc_list(items, g).len() <= b.len(),
        b.subrange(pos, pos + enc_list(items, g).len() as int) == enc_list(items, g),
        forall|k: int| 0 <= k < items.len() ==> inverts_at(b, f, g, #[trigger] items[k]),
    ensures
        parse_list(b, pos, f) == Some((items, pos + enc_list(items, g).len() as int)),
{
    lemma_sub_split(b, pos, enc_u32(items.len() as u32), concat_map(items, g));
    lemma_u32_rt(b, pos, items.len() as u32);
    lemma_parse_n_of_concat(b, pos + 4, items, f, g);
}


proof fn lemma_prec_rt(b: Seq<u8>, pos: int, p: FloatPrecision)
    requires
        0 <= pos,
        pos + 1 <= b.len(),
        b.subrange(pos, pos + 1) == enc_u8(prec_code(p)),
    ensures
        parse_prec(b, pos) == Some((p, pos + 1)),
{
    lemma_u8_rt(b, pos, prec_code(p));
}

proof fn lemma_pauli_rt(b: Seq<u8>, pos: int, p: Pauli)
    requires
        0 <= pos,
        pos + 1 <= b.len(),
        b.subrange(pos, pos + 1) == enc_pauli(p),
    ensures
        parse_pauli(b, pos) == Some((p, pos + 1)),
{
    assert(b[pos] == b.subrange(pos, pos + 1)[0]);
}

proof fn lemma_well_known_rt(b: Seq<u8>, pos: int, g: WellKnownGate)
    requires
        0 <= pos,
        pos + 1 <= b.len(),
        b.subrange(pos, pos + 1) == enc_u8(well_known_code(g)),
    ensures
        parse_well_known(b, pos) == Some((g, pos + 1)),
{
    lemma_u8_rt(b, pos, well_known_code(g));
}

proof fn lemma_qureg_rt(b: Seq<u8>, pos: int, q: QubitRegisterOp)
    requires
        0 <= pos,
        pos + 1 <= b.len(),
        b.subrange(pos, pos + 1) == enc_u8(qureg_code(q)),
    ensures
        parse_qureg_op(b, pos) == Some((q, pos + 1)),
{
    lemma_u8_rt(b, pos, qureg_code(q));
}

proof fn lemma_type_rt(b: Seq<u8>, pos: int, t: Type)
    requires
        0 <= pos,
        pos + enc_type(t).len() <= b.len(),
        b.subrange(pos, pos + enc_type(t).len() as int) == enc_type(t),
    ensures
        parse_type(b, pos) == Some((t, pos + enc_type(t).len() as int)),
{
    match t {
        Type::Qubit => {
            lemma_u8_rt(b, pos, 0);
        },
        Type::QubitRegister => {
            lemma_u8_rt(b, pos, 1);
        },
        Type::Int { bits } => {
            assert(enc_type(t) =~= enc_u8(2) + enc_u8(bits));
            lemma_sub_split(b, pos, enc_u8(2), enc_u8(bits));
            lemma_u8_rt(b, pos, 2);
            lemma_u8_rt(b, pos + 1, bits);
        },
        Type::IntArray { bits } => {
            assert(enc_type(t) =~= enc_u8(3) + enc_u8(bits));
            lemma_sub_split(b, pos, enc_u8(3), enc_u8(bits));
            lemma_u8_rt(b, pos, 3);
            lemma_u8_rt(b, pos + 1, bits);
        },
        Type::Float { precision } => {
            lemma_sub_split(b, pos, seq![4u8], enc_u8(prec_code(precision)));
            lemma_u8_rt(b, pos, 4);
            lemma_prec_rt(b, pos + 1, precision);
        },
        Type::FloatArray { precision } => {
            lemma_sub_split(b, pos, seq![5u8], enc_u8(prec_code(precision)));
            lemma_u8_rt(b, pos, 5);
            lemma_prec_rt(b, pos + 1, precision);
        },
    }
}

proof fn lemma_meta_rt(b: Seq<u8>, pos: int, m: MetaModel)
    requires
        meta_bounded(m),
        0 <= pos,
        pos + enc_meta(m).len() <= b.len(),
        b.subrange(pos, pos + enc_meta(m).len() as int) == enc_meta(m),
    ensures
        parse_meta(b, pos) == Some((m, pos + enc_meta(m).len() as int)),
{
    lemma_sub_split(b, pos, enc_u16(m.name), enc_bytes(m.value));
    lemma_u16_rt(b, pos, m.name);
    lemma_bytes_rt(b, pos + 2, m.value);
}

proof fn lemma_meta_inverts(b: Seq<u8>, m: MetaModel)
    requires
        meta_bounded(m),
    ensures
        inverts_at(b, parse_meta_fn(), enc_meta_fn(), m),
{
    let g = enc_meta_fn();
    assert forall|pos: int|
        0 <= pos && pos + g(m).len() <= b.len() && b.subrange(pos, pos + g(m).len() as int) == g(
            m,
        ) implies #[trigger] parse_meta_fn()(b, pos) == Some((m, pos + g(m).len() as int)) by {
        lemma_meta_rt(b, pos, m);
    }
}

proof fn lemma_metas_rt(b: Seq<u8>, pos: int, ms: Seq<MetaModel>)
    requires
        metas_bounded(ms),
        0 <= pos,
        pos + enc_metas(ms).len() <= b.len(),
        b.subrange(pos, pos + enc_metas(ms).len() as int) == enc_metas(ms),
    ensures
        parse_metas(b, pos) == Some((ms, pos + enc_metas(ms).len() as int)),
{
    assert forall|k: int| 0 <= k < ms.len() implies inverts_at(
        b,
        parse_meta_fn(),
        enc_meta_fn(),
        #[trigger] ms[k],
    ) by {
        lemma_meta_inverts(b, ms[k]);
    }
    lemma_list_rt(b, pos, ms, parse_meta_fn(), enc_meta_fn());
}

proof fn lemma_value_rt(b: Seq<u8>, pos: int, v: ValueModel)
    requires
        value_bounded(v),
        0 <= pos,
        pos + enc_value(v).len() <= b.len(),
        b.subrange(pos, pos + enc_value(v).len() as int) == enc_value(v),
    ensures
        parse_value(b, pos) == Some((v, pos + enc_value(v).len() as int)),
{
    lemma_sub_split(b, pos, enc_type(v.ty), enc_metas(v.metadata));
    lemma_type_rt(b, pos, v.ty);
    lemma_metas_rt(b, pos + enc_type(v.ty).len() as int, v.metadata);
}

proof fn lemma_value_inverts(b: Seq<u8>, v: ValueModel)
    requires
        value_bounded(v),
    ensures
        inverts_at(b, parse_value_fn(), enc_value_fn(), v),
{
    let g = enc_value_fn();
    assert forall|pos: int|
        0 <= pos && pos + g(v).len() <= b.len() && b.subrange(pos, pos + g(v).len() as int) == g(
            v,
        ) implies #[trigger] parse_value_fn()(b, pos) == Some((v, pos + g(v).len() as int)) by {
        lemma_value_rt(b, pos, v);
    }
}

proof fn lemma_values_rt(b: Seq<u8>, pos: int, vs: Seq<ValueModel>)
    requires
        values_bounded(vs),
        0 <= pos,
        pos + enc_list(vs, enc_value_fn()).len() <= b.len(),
        b.subrange(pos, pos + enc_list(vs, enc_value_fn()).len() as int) == enc_list(
            vs,
            enc_value_fn(),
        ),
    ensures
        parse_list(b, pos, parse_value_fn()) == Some(
            (vs, pos + enc_list(vs, enc_value_fn()).len() as int),
        ),
{
    assert forall|k: int| 0 <= k < vs.len() implies inverts_at(
        b,
        parse_value_fn(),
        enc_value_fn(),
        #[trigger] vs[k],
    ) by {
        lemma_value_inverts(b, vs[k]);
    }
    lemma_list_rt(b, pos, vs, parse_value_fn(), enc_value_fn());
}

proof fn lemma_u32_inverts(b: Seq<u8>, v: u32)
    ensures
        inverts_at(b, parse_u32_fn(), enc_u32_fn(), v),
{
    let g = enc_u32_fn();
    assert forall|pos: int|
        0 <= pos && pos + g(v).len() <= b.len() && b.subrange(pos, pos + g(v).len() as int) == g(
            v,
        ) implies #[trigger] parse_u32_fn()(b, pos) == Some((v, pos + g(v).len() as int)) by {
        lemma_u32_rt(b, pos, v);
    }
}

proof fn lemma_u32_list_rt(b: Seq<u8>, pos: int, vs: Seq<u32>)
    requires
        vs.len() < count_limit(),
        0 <= pos,
        pos + enc_list(vs, enc_u32_fn()).len() <= b.len(),
        b.subrange(pos, pos + enc_list(vs, enc_u32_fn()).len() as int) == enc_list(
            vs,
            enc_u32_fn(),
        ),
    ensures
        parse_list(b, pos, parse_u32_fn()) == Some(
            (vs, pos + enc_list(vs, enc_u32_fn()).len() as int),
        ),
{
    assert forall|k: int| 0 <= k < vs.len() implies inverts_at(
        b,
        parse_u32_fn(),
        enc_u32_fn(),
        #[trigger] vs[k],
    ) by {
        lemma_u32_inverts(b, vs[k]);
    }
    lemma_list_rt(b, pos, vs, parse_u32_fn(), enc_u32_fn());
}

proof fn lemma_u8_inverts(b: Seq<u8>, v: u8)
    ensures
        inverts_at(b, parse_u8_fn(), enc_u8_fn(), v),
{
    let g = enc_u8_fn();
    assert forall|pos: int|
        0 <= pos && pos + g(v).len() <= b.len() && b.subrange(pos, pos + g(v).len() as int) == g(
            v,
        ) implies #[trigger] parse_u8_fn()(b, pos) == Some((v, pos + g(v).len() as int)) by {
        lemma_u8_rt(b, pos, v);
    }
}

proof fn lemma_u16_inverts(b: Seq<u8>, v: u16)
    ensures
        inverts_at(b, parse_u16_fn(), enc_u16_fn(), v),
{
    let g = enc_u16_fn();
    assert forall|pos: int|
        0 <= pos && pos + g(v).len() <= b.len() && b.subrange(pos, pos + g(v).len() as int) == g(
            v,
        ) implies #[trigger] parse_u16_fn()(b, pos) == Some((v, pos + g(v).len() as int)) by {
        lemma_u16_rt(b, pos, v);
    }
}

proof fn lemma_u64_inverts(b: Seq<u8>, v: u64)
    ensures
        inverts_at(b, parse_u64_fn(), enc_u64_fn(), v),
{
    let g = enc_u64_fn();
    assert forall|pos: int|
        0 <= pos && pos + g(v).len() <= b.len() && b.subrange(pos, pos + g(v).len() as int) == g(
            v,
        ) implies #[trigger] parse_u64_fn()(b, pos) == Some((v, pos + g(v).len() as int)) by {
        lemma_u64_rt(b, pos, v);
    }
}

proof fn lemma_bool_inverts(b: Seq<u8>, v: bool)
    ensures
        inverts_at(b, parse_bool_fn(), enc_bool_fn(), v),
{
    let g = enc_bool_fn();
    assert forall|pos: int|
        0 <= pos && pos + g(v).len() <= b.len() && b.subrange(pos, pos + g(v).len() as int) == g(
            v,
        ) implies #[trigger] parse_bool_fn()(b, pos) == Some((v, pos + g(v).len() as int)) by {
        lemma_bool_rt(b, pos, v);
    }
}

proof fn lemma_pauli_inverts(b: Seq<u8>, v: Pauli)
    ensures
        inverts_at(b, parse_pauli_fn(), enc_pauli_fn(), v),
{
    let g = enc_pauli_fn();
    assert forall|pos: int|
        0 <= pos && pos + g(v).len() <= b.len() && b.subrange(pos, pos + g(v).len() as int) == g(
            v,
        ) implies #[trigger] parse_pauli_fn()(b, pos) == Some((v, pos + g(v).len() as int)) by {
        lemma_pauli_rt(b, pos, v);
    }
}

proof fn lemma_bytes_inverts(b: Seq<u8>, s: Seq<u8>)
    requires
        s.len() < count_limit(),
    ensures
        inverts_at(b, parse_bytes_fn(), enc_bytes_fn(), s),
{
    let g = enc_bytes_fn();
    assert forall|pos: int|
        0 <= pos && pos + g(s).len() <= b.len() && b.subrange(pos, pos + g(s).len() as int) == g(
            s,
        ) implies #[trigger] parse_bytes_fn()(b, pos) == Some((s, pos + g(s).len() as int)) by {
        lemma_bytes_rt(b, pos, s);
    }
}

proof fn lemma_prim_list_rt<T>(
    b: Seq<u8>,
    pos: int,
    vs: Seq<T>,
    f: spec_fn(Seq<u8>, int) -> Option<(T, int)>,
    g: spec_fn(T) -> Seq<u8>,
)
    requires
        vs.len() < count_limit(),
        forall|k: int| 0 <= k < vs.len() ==> inverts_at(b, f, g, #[trigger] vs[k]),
        0 <= pos,
        pos + enc_list(vs, g).len() <= b.len(),
        b.subrange(pos, pos + enc_list(vs, g).len() as int) == enc_list(vs, g),
    ensures
        parse_list(b, pos, f) == Some((vs, pos + enc_list(vs, g).len() as int)),
{
    lemma_list_rt(b, pos, vs, f, g);
}


proof fn lemma_gate_type_rt(b: Seq<u8>, pos: int, g: GateTypeModel)
    requires
        gate_type_bounded(g),
        0 <= pos,
        pos + enc_gate_type(g).len() <= b.len(),
        b.subrange(pos, pos + enc_gate_type(g).len() as int) == enc_gate_type(g),
    ensures
        parse_gate_type(b, pos) == Some((g, pos + enc_gate_type(g).len() as int)),
{
    match g {
        GateTypeModel::WellKnown(wk) => {
            lemma_sub_split(b, pos, seq![0u8], enc_u8(well_known_code(wk)));
            lemma_u8_rt(b, pos, 0);
            lemma_well_known_rt(b, pos + 1, wk);
        },
        GateTypeModel::Custom { name, num_qubits, num_params } => {
            lemma_sub_split(b, pos, seq![1u8] + enc_u16(name), seq![num_qubits, num_params]);
            lemma_sub_split(b, pos, seq![1u8], enc_u16(name));
            lemma_u8_rt(b, pos, 1);
            lemma_u16_rt(b, pos + 1, name);
            assert(seq![num_qubits, num_params] =~= enc_u8(num_qubits) + enc_u8(num_params));
            lemma_sub_split(b, pos + 3, enc_u8(num_qubits), enc_u8(num_params));
            lemma_u8_rt(b, pos + 3, num_qubits);
            lemma_u8_rt(b, pos + 4, num_params);
        },
        GateTypeModel::PauliProdRotation { paulis } => {
            lemma_sub_split(b, pos, seq![2u8], enc_list(paulis, enc_pauli_fn()));
            lemma_u8_rt(b, pos, 2);
            assert forall|k: int| 0 <= k < paulis.len() implies inverts_at(
                b,
                parse_pauli_fn(),
                enc_pauli_fn(),
                #[trigger] paulis[k],
            ) by {
                lemma_pauli_inverts(b, paulis[k]);
            }
            lemma_prim_list_rt(b, pos + 1, paulis, parse_pauli_fn(), enc_pauli_fn());
        },
    }
}

proof fn lemma_gate_rt(b: Seq<u8>, pos: int, g: GateModel)
    requires
        gate_bounded(g),
        0 <= pos,
        pos + enc_gate(g).len() <= b.len(),
        b.subrange(pos, pos + enc_gate(g).len() as int) == enc_gate(g),
    ensures
        parse_gate(b, pos) == Some((g, pos + enc_gate(g).len() as int)),
{
    lemma_sub_split(
        b,
        pos,
        seq![g.control_qubits] + enc_bool(g.adjoint) + seq![g.power],
        enc_gate_type(g.gate_type),
    );
    lemma_sub_split(b, pos, seq![g.control_qubits] + enc_bool(g.adjoint), seq![g.power]);
    lemma_sub_split(b, pos, seq![g.control_qubits], enc_bool(g.adjoint));
    assert(seq![g.control_qubits] =~= enc_u8(g.control_qubits));
    assert(seq![g.power] =~= enc_u8(g.power));
    lemma_u8_rt(b, pos, g.control_qubits);
    lemma_bool_rt(b, pos + 1, g.adjoint);
    lemma_u8_rt(b, pos + 2, g.power);
    lemma_gate_type_rt(b, pos + 3, g.gate_type);
}

proof fn lemma_qubit_op_rt(b: Seq<u8>, pos: int, q: QubitOpModel)
    requires
        op_type_bounded(OpTypeModel::QubitOp(q)),
        0 <= pos,
        pos + enc_qubit_op(q).len() <= b.len(),
        b.subrange(pos, pos + enc_qubit_op(q).len() as int) == enc_qubit_op(q),
    ensures
        parse_qubit_op(b, pos) == Some((q, pos + enc_qubit_op(q).len() as int)),
{
    match q {
        QubitOpModel::Gate(g) => {
            lemma_sub_split(b, pos, seq![6u8], enc_gate(g));
            lemma_u8_rt(b, pos, 6);
            lemma_gate_rt(b, pos + 1, g);
        },
        _ => {
            assert(b[pos] == b.subrange(pos, pos + enc_qubit_op(q).len() as int)[0]);
        },
    }
}

proof fn lemma_int_op_rt(b: Seq<u8>, pos: int, o: IntOp)
    requires
        0 <= pos,
        pos + enc_int_op(o).len() <= b.len(),
        b.subrange(pos, pos + enc_int_op(o).len() as int) == enc_int_op(o),
    ensures
        parse_int_op(b, pos) == Some((o, pos + enc_int_op(o).len() as int)),
{
    match o {
        IntOp::Const1(v) => {
            lemma_sub_split(b, pos, seq![0u8], enc_bool(v));
            lemma_u8_rt(b, pos, 0);
            lemma_bool_rt(b, pos + 1, v);
        },
        IntOp::Const8(v) => {
            assert(enc_int_op(o) =~= enc_u8(1) + enc_u8(v));
            lemma_sub_split(b, pos, enc_u8(1), enc_u8(v));
            lemma_u8_rt(b, pos, 1);
            lemma_u8_rt(b, pos + 1, v);
        },
        IntOp::Const16(v) => {
            lemma_sub_split(b, pos, seq![2u8], enc_u16(v));
            lemma_u8_rt(b, pos, 2);
            lemma_u16_rt(b, pos + 1, v);
        },
        IntOp::Const32(v) => {
            lemma_sub_split(b, pos, seq![3u8], enc_u32(v));
            lemma_u8_rt(b, pos, 3);
            lemma_u32_rt(b, pos + 1, v);
        },
        IntOp::Const64(v) => {
            lemma_sub_split(b, pos, seq![4u8], enc_u64(v));
            lemma_u8_rt(b, pos, 4);
            lemma_u64_rt(b, pos + 1, v);
        },
        _ => {
            assert(b[pos] == b.subrange(pos, pos + enc_int_op(o).len() as int)[0]);
        },
    }
}

proof fn lemma_int_array_op_rt(b: Seq<u8>, pos: int, o: IntArrayOpModel)
    requires
        op_type_bounded(OpTypeModel::IntArrayOp(o)),
        0 <= pos,
        pos + enc_int_array_op(o).len() <= b.len(),
        b.subrange(pos, pos + enc_int_array_op(o).len() as int) == enc_int_array_op(o),
    ensures
        parse_int_array_op(b, pos) == Some((o, pos + enc_int_array_op(o).len() as int)),
{
    match o {
        IntArrayOpModel::ConstArray1(v) => {
            lemma_sub_split(b, pos, seq![0u8], enc_list(v, enc_bool_fn()));
            lemma_u8_rt(b, pos, 0);
            assert forall|k: int| 0 <= k < v.len() implies inverts_at(
                b,
                parse_bool_fn(),
                enc_bool_fn(),
                #[trigger] v[k],
            ) by {
                lemma_bool_inverts(b, v[k]);
            }
            lemma_prim_list_rt(b, pos + 1, v, parse_bool_fn(), enc_bool_fn());
        },
        IntArrayOpModel::ConstArray8(v) => {
            lemma_sub_split(b, pos, seq![1u8], enc_list(v, enc_u8_fn()));
            lemma_u8_rt(b, pos, 1);
            assert forall|k: int| 0 <= k < v.len() implies inverts_at(
                b,
                parse_u8_fn(),
                enc_u8_fn(),
                #[trigger] v[k],
            ) by {
                lemma_u8_inverts(b, v[k]);
            }
            lemma_prim_list_rt(b, pos + 1, v, parse_u8_fn(), enc_u8_fn());
        },
        IntArrayOpModel::ConstArray16(v) => {
            lemma_sub_split(b, pos, seq![2u8], enc_list(v, enc_u16_fn()));
            lemma_u8_rt(b, pos, 2);
            assert forall|k: int| 0 <= k < v.len() implies inverts_at(
                b,
                parse_u16_fn(),
                enc_u16_fn(),
                #[trigger] v[k],
            ) by {
                lemma_u16_inverts(b, v[k]);
            }
            lemma_prim_list_rt(b, pos + 1, v, parse_u16_fn(), enc_u16_fn());
        },
        IntArrayOpModel::ConstArray32(v) => {
            lemma_sub_split(b, pos, seq![3u8], enc_list(v, enc_u32_fn()));
            lemma_u8_rt(b, pos, 3);
            lemma_u32_list_rt(b, pos + 1, v);
        },
        IntArrayOpModel::ConstArray64(v) => {
            lemma_sub_split(b, pos, seq![4u8], enc_list(v, enc_u64_fn()));
            lemma_u8_rt(b, pos, 4);
            assert forall|k: int| 0 <= k < v.len() implies inverts_at(
                b,
                parse_u64_fn(),
                enc_u64_fn(),
                #[trigger] v[k],
            ) by {
                lemma_u64_inverts(b, v[k]);
            }
            lemma_prim_list_rt(b, pos + 1, v, parse_u64_fn(), enc_u64_fn());
        },
        IntArrayOpModel::Zero { bits } => {
            assert(enc_int_array_op(o) =~= enc_u8(5) + enc_u8(bits));
            lemma_sub_split(b, pos, enc_u8(5), enc_u8(bits));
            lemma_u8_rt(b, pos, 5);
            lemma_u8_rt(b, pos + 1, bits);
        },
        _ => {
            assert(b[pos] == b.subrange(pos, pos + enc_int_array_op(o).len() as int)[0]);
        },
    }
}

proof fn lemma_float_op_rt(b: Seq<u8>, pos: int, o: FloatOp)
    requires
        0 <= pos,
        pos + enc_float_op(o).len() <= b.len(),
        b.subrange(pos, pos + enc_float_op(o).len() as int) == enc_float_op(o),
    ensures
        parse_float_op(b, pos) == Some((o, pos + enc_float_op(o).len() as int)),
{
    match o {
        FloatOp::Const32(v) => {
            lemma_sub_split(b, pos, seq![0u8], enc_u32(v));
            lemma_u8_rt(b, pos, 0);
            lemma_u32_rt(b, pos + 1, v);
        },
        FloatOp::Const64(v) => {
            lemma_sub_split(b, pos, seq![1u8], enc_u64(v));
            lemma_u8_rt(b, pos, 1);
            lemma_u64_rt(b, pos + 1, v);
        },
        _ => {
            assert(b[pos] == b.subrange(pos, pos + enc_float_op(o).len() as int)[0]);
        },
    }
}

proof fn lemma_float_array_op_rt(b: Seq<u8>, pos: int, o: FloatArrayOpModel)
    requires
        op_type_bounded(OpTypeModel::FloatArrayOp(o)),
        0 <= pos,
        pos + enc_float_array_op(o).len() <= b.len(),
        b.subrange(pos, pos + enc_float_array_op(o).len() as int) == enc_float_array_op(o),
    ensures
        parse_float_array_op(b, pos) == Some((o, pos + enc_float_array_op(o).len() as int)),
{
    match o {
        FloatArrayOpModel::Const32(v) => {
            lemma_sub_split(b, pos, seq![0u8], enc_list(v, enc_u32_fn()));
            lemma_u8_rt(b, pos, 0);
            lemma_u32_list_rt(b, pos + 1, v);
        },
        FloatArrayOpModel::Const64(v) => {
            lemma_sub_split(b, pos, seq![1u8], enc_list(v, enc_u64_fn()));
            lemma_u8_rt(b, pos, 1);
            assert forall|k: int| 0 <= k < v.len() implies inverts_at(
                b,
                parse_u64_fn(),
                enc_u64_fn(),
                #[trigger] v[k],
            ) by {
                lemma_u64_inverts(b, v[k]);
            }
            lemma_prim_list_rt(b, pos + 1, v, parse_u64_fn(), enc_u64_fn());
        },
        FloatArrayOpModel::Zero { precision } => {
            lemma_sub_split(b, pos, seq![2u8], enc_u8(prec_code(precision)));
            lemma_u8_rt(b, pos, 2);
            lemma_prec_rt(b, pos + 1, precision);
        },
        _ => {
            assert(b[pos] == b.subrange(pos, pos + enc_float_array_op(o).len() as int)[0]);
        },
    }
}

proof fn lemma_opt_u32_rt(b: Seq<u8>, pos: int, o: Option<u32>)
    requires
        0 <= pos,
        pos + enc_opt_u32(o).len() <= b.len(),
        b.subrange(pos, pos + enc_opt_u32(o).len() as int) == enc_opt_u32(o),
    ensures
        parse_opt_u32(b, pos) == Some((o, pos + enc_opt_u32(o).len() as int)),
{
    match o {
        None => {
            assert(b[pos] == b.subrange(pos, pos + 1)[0]);
        },
        Some(v) => {
            lemma_sub_split(b, pos, seq![1u8], enc_u32(v));
            lemma_u8_rt(b, pos, 1);
            lemma_u32_rt(b, pos + 1, v);
        },
    }
}

proof fn lemma_control_flow_rt(b: Seq<u8>, pos: int, cf: ControlFlowModel)
    requires
        op_type_bounded(OpTypeModel::ControlFlowOp(cf)),
        0 <= pos,
        pos + enc_control_flow(cf).len() <= b.len(),
        b.subrange(pos, pos + enc_control_flow(cf).len() as int) == enc_control_flow(cf),
    ensures
        parse_control_flow(b, pos) == Some((cf, pos + enc_control_flow(cf).len() as int)),
{
    match cf {
        ControlFlowModel::Switch { branches, default } => {
            lemma_sub_split(
                b,
                pos,
                seq![0u8] + enc_list(branches, enc_u32_fn()),
                enc_opt_u32(default),
            );
            lemma_sub_split(b, pos, seq![0u8], enc_list(branches, enc_u32_fn()));
            lemma_u8_rt(b, pos, 0);
            lemma_u32_list_rt(b, pos + 1, branches);
            lemma_opt_u32_rt(
                b,
                pos + 1 + enc_list(branches, enc_u32_fn()).len() as int,
                default,
            );
        },
        ControlFlowModel::For { region } => {
            lemma_sub_split(b, pos, seq![1u8], enc_u32(region));
            lemma_u8_rt(b, pos, 1);
            lemma_u32_rt(b, pos + 1, region);
        },
        ControlFlowModel::While { condition, body } => {
            lemma_sub_split(b, pos, seq![2u8] + enc_u32(condition), enc_u32(body));
            lemma_sub_split(b, pos, seq![2u8], enc_u32(condition));
            lemma_u8_rt(b, pos, 2);
            lemma_u32_rt(b, pos + 1, condition);
            lemma_u32_rt(b, pos + 5, body);
        },
        ControlFlowModel::DoWhile { body, condition } => {
            lemma_sub_split(b, pos, seq![3u8] + enc_u32(body), enc_u32(condition));
            lemma_sub_split(b, pos, seq![3u8], enc_u32(body));
            lemma_u8_rt(b, pos, 3);
            lemma_u32_rt(b, pos + 1, body);
            lemma_u32_rt(b, pos + 5, condition);
        },
    }
}

proof fn lemma_op_type_rt(b: Seq<u8>, pos: int, t: OpTypeModel)
    requires
        op_type_bounded(t),
        0 <= pos,
        pos + enc_op_type(t).len() <= b.len(),
        b.subrange(pos, pos + enc_op_type(t).len() as int) == enc_op_type(t),
    ensures
        parse_op_type(b, pos) == Some((t, pos + enc_op_type(t).len() as int)),
{
    match t {
        OpTypeModel::QubitOp(q) => {
            lemma_sub_split(b, pos, seq![0u8], enc_qubit_op(q));
            lemma_u8_rt(b, pos, 0);
            lemma_qubit_op_rt(b, pos + 1, q);
        },
        OpTypeModel::QubitRegisterOp(q) => {
            lemma_sub_split(b, pos, seq![1u8], enc_u8(qureg_code(q)));
            lemma_u8_rt(b, pos, 1);
            lemma_qureg_rt(b, pos + 1, q);
        },
        OpTypeModel::IntOp(o) => {
            lemma_sub_split(b, pos, seq![2u8], enc_int_op(o));
            lemma_u8_rt(b, pos, 2);
            lemma_int_op_rt(b, pos + 1, o);
        },
        OpTypeModel::IntArrayOp(o) => {
            lemma_sub_split(b, pos, seq![3u8], enc_int_array_op(o));
            lemma_u8_rt(b, pos, 3);
            lemma_int_array_op_rt(b, pos + 1, o);
        },
        OpTypeModel::FloatOp(o) => {
            lemma_sub_split(b, pos, seq![4u8], enc_float_op(o));
            lemma_u8_rt(b, pos, 4);
            lemma_float_op_rt(b, pos + 1, o);
        },
        OpTypeModel::FloatArrayOp(o) => {
            lemma_sub_split(b, pos, seq![5u8], enc_float_array_op(o));
            lemma_u8_rt(b, pos, 5);
            lemma_float_array_op_rt(b, pos + 1, o);
        },
        OpTypeModel::ControlFlowOp(cf) => {
            lemma_sub_split(b, pos, seq![6u8], enc_control_flow(cf));
            lemma_u8_rt(b, pos, 6);
            lemma_control_flow_rt(b, pos + 1, cf);
        },
        OpTypeModel::FuncOp(f) => {
            lemma_sub_split(b, pos, seq![7u8], enc_u32(f.func_idx));
            lemma_u8_rt(b, pos, 7);
            lemma_u32_rt(b, pos + 1, f.func_idx);
        },
    }
}

proof fn lemma_op_rt(b: Seq<u8>, pos: int, o: OpModel)
    requires
        op_bounded(o),
        0 <= pos,
        pos + enc_op(o).len() <= b.len(),
        b.subrange(pos, pos + enc_op(o).len() as int) == enc_op(o),
    ensures
        parse_op(b, pos) == Some((o, pos + enc_op(o).len() as int)),
{
    let e1 = enc_op_type(o.op_type);
    let e2 = enc_list(o.inputs, enc_u32_fn());
    let e3 = enc_list(o.outputs, enc_u32_fn());
    let e4 = enc_metas(o.metadata);
    lemma_sub_split(b, pos, e1 + e2 + e3, e4);
    lemma_sub_split(b, pos, e1 + e2, e3);
    lemma_sub_split(b, pos, e1, e2);
    lemma_op_type_rt(b, pos, o.op_type);
    lemma_u32_list_rt(b, pos + e1.len() as int, o.inputs);
    lemma_u32_list_rt(b, pos + e1.len() + e2.len(), o.outputs);
    lemma_metas_rt(b, pos + e1.len() + e2.len() + e3.len(), o.metadata);
}

proof fn lemma_op_inverts(b: Seq<u8>, o: OpModel)
    requires
        op_bounded(o),
    ensures
        inverts_at(b, parse_op_fn(), enc_op_fn(), o),
{
    let g = enc_op_fn();
    assert forall|pos: int|
        0 <= pos && pos + g(o).len() <= b.len() && b.subrange(pos, pos + g(o).len() as int) == g(
            o,
        ) implies #[trigger] parse_op_fn()(b, pos) == Some((o, pos + g(o).len() as int)) by {
        lemma_op_rt(b, pos, o);
    }
}

proof fn lemma_region_rt(b: Seq<u8>, pos: int, r: RegionModel)
    requires
        region_bounded(r),
        0 <= pos,
        pos + enc_region(r).len() <= b.len(),
        b.subrange(pos, pos + enc_region(r).len() as int) == enc_region(r),
    ensures
        parse_region(b, pos) == Some((r, pos + enc_region(r).len() as int)),
{
    let e1 = enc_list(r.sources, enc_u32_fn());
    let e2 = enc_list(r.targets, enc_u32_fn());
    let e3 = enc_list(r.operations, enc_op_fn());
    let e4 = enc_metas(r.metadata);
    lemma_sub_split(b, pos, e1 + e2 + e3, e4);
    lemma_sub_split(b, pos, e1 + e2, e3);
    lemma_sub_split(b, pos, e1, e2);
    lemma_u32_list_rt(b, pos, r.sources);
    lemma_u32_list_rt(b, pos + e1.len() as int, r.targets);
    assert forall|k: int| 0 <= k < r.operations.len() implies inverts_at(
        b,
        parse_op_fn(),
        enc_op_fn(),
        #[trigger] r.operations[k],
    ) by {
        lemma_op_inverts(b, r.operations[k]);
    }
    lemma_list_rt(b, pos + e1.len() + e2.len(), r.operations, parse_op_fn(), enc_op_fn());
    lemma_metas_rt(b, pos + e1.len() + e2.len() + e3.len(), r.metadata);
}

proof fn lemma_region_inverts(b: Seq<u8>, r: RegionModel)
    requires
        region_bounded(r),
    ensures
        inverts_at(b, parse_region_fn(), enc_region_fn(), r),
{
    let g = enc_region_fn();
    assert forall|pos: int|
        0 <= pos && pos + g(r).len() <= b.len() && b.subrange(pos, pos + g(r).len() as int) == g(
            r,
        ) implies #[trigger] parse_region_fn()(b, pos) == Some((r, pos + g(r).len() as int)) by {
        lemma_region_rt(b, pos, r);
    }
}

proof fn lemma_definition_rt(b: Seq<u8>, pos: int, d: crate::model::DefinitionModel)
    requires
        function_bounded(FunctionModel::Definition(d)),
        0 <= pos,
        pos + enc_function(FunctionModel::Definition(d)).len() <= b.len(),
        b.subrange(pos, pos + enc_function(FunctionModel::Definition(d)).len() as int)
            == enc_function(FunctionModel::Definition(d)),
    ensures
        parse_function(b, pos) == Some(
            (
                FunctionModel::Definition(d),
                pos + enc_function(FunctionModel::Definition(d)).len() as int,
            ),
        ),
{
    let e1 = seq![0u8];
    let e2 = enc_u16(d.name);
    let e3 = enc_list(d.values, enc_value_fn());
    let e4 = enc_list(d.regions, enc_region_fn());
    let e5 = enc_metas(d.metadata);
    lemma_sub_split(b, pos, e1 + e2 + e3 + e4, e5);
    lemma_sub_split(b, pos, e1 + e2 + e3, e4);
    lemma_sub_split(b, pos, e1 + e2, e3);
    lemma_sub_split(b, pos, e1, e2);
    lemma_u8_rt(b, pos, 0);
    lemma_u16_rt(b, pos + 1, d.name);
    lemma_values_rt(b, pos + 3, d.values);
    assert forall|k: int| 0 <= k < d.regions.len() implies inverts_at(
        b,
        parse_region_fn(),
        enc_region_fn(),
        #[trigger] d.regions[k],
    ) by {
        lemma_region_inverts(b, d.regions[k]);
    }
    lemma_list_rt(b, pos + 3 + e3.len() as int, d.regions, parse_region_fn(), enc_region_fn());
    lemma_metas_rt(b, pos + 3 + e3.len() + e4.len(), d.metadata);
}

proof fn lemma_declaration_rt(b: Seq<u8>, pos: int, d: crate::model::DeclarationModel)
    requires
        function_bounded(FunctionModel::Declaration(d)),
        0 <= pos,
        pos + enc_function(FunctionModel::Declaration(d)).len() <= b.len(),
        b.subrange(pos, pos + enc_function(FunctionModel::Declaration(d)).len() as int)
            == enc_function(FunctionModel::Declaration(d)),
    ensures
        parse_function(b, pos) == Some(
            (
                FunctionModel::Declaration(d),
                pos + enc_function(FunctionModel::Declaration(d)).len() as int,
            ),
        ),
{
    let e1 = seq![1u8];
    let e2 = enc_u16(d.name);
    let e3 = enc_list(d.inputs, enc_value_fn());
    let e4 = enc_list(d.outputs, enc_value_fn());
    let e5 = enc_metas(d.metadata);
    lemma_sub_split(b, pos, e1 + e2 + e3 + e4, e5);
    lemma_sub_split(b, pos, e1 + e2 + e3, e4);
    lemma_sub_split(b, pos, e1 + e2, e3);
    lemma_sub_split(b, pos, e1, e2);
    lemma_u8_rt(b, pos, 1);
    lemma_u16_rt(b, pos + 1, d.name);
    lemma_values_rt(b, pos + 3, d.inputs);
    lemma_values_rt(b, pos + 3 + e3.len() as int, d.outputs);
    lemma_metas_rt(b, pos + 3 + e3.len() + e4.len(), d.metadata);
}

proof fn lemma_function_rt(b: Seq<u8>, pos: int, f: FunctionModel)
    requires
        function_bounded(f),
        0 <= pos,
        pos + enc_function(f).len() <= b.len(),
        b.subrange(pos, pos + enc_function(f).len() as int) == enc_function(f),
    ensures
        parse_function(b, pos) == Some((f, pos + enc_function(f).len() as int)),
{
    match f {
        FunctionModel::Definition(d) => {
            lemma_definition_rt(b, pos, d);
        },
        FunctionModel::Declaration(d) => {
            lemma_declaration_rt(b, pos, d);
        },
    }
}

proof fn lemma_function_inverts(b: Seq<u8>, f: FunctionModel)
    requires
        function_bounded(f),
    ensures
        inverts_at(b, parse_function_fn(), enc_function_fn(), f),
{
    let g = enc_function_fn();
    assert forall|pos: int|
        0 <= pos && pos + g(f).len() <= b.len() && b.subrange(pos, pos + g(f).len() as int) == g(
            f,
        ) implies #[trigger] parse_function_fn()(b, pos) == Some((f, pos + g(f).len() as int)) by {
        lemma_function_rt(b, pos, f);
    }
}

/// Parsing a buffer that holds the encoding of a module yields that module.
pub proof fn lemma_module_rt(b: Seq<u8>, pos: int, m: ModuleModel)
    requires
        module_bounded(m),
        0 <= pos,
        pos + enc_module(m).len() <= b.len(),
        b.subrange(pos, pos + enc_module(m).len() as int) == enc_module(m),
    ensures
        parse_module(b, pos) == Some((m, pos + enc_module(m).len() as int)),
{
    let e1 = magic();
    let e2 = enc_u32(m.version);
    let e3 = enc_bytes(m.tool);
    let e4 = enc_bytes(m.tool_version);
    let e5 = enc_u32(m.entrypoint);
    let e6 = enc_list(m.strings, enc_bytes_fn());
    let e7 = enc_list(m.functions, enc_function_fn());
    let e8 = enc_metas(m.metadata);
    lemma_sub_split(b, pos, e1 + e2 + e3 + e4 + e5 + e6 + e7, e8);
    lemma_sub_split(b, pos, e1 + e2 + e3 + e4 + e5 + e6, e7);
    lemma_sub_split(b, pos, e1 + e2 + e3 + e4 + e5, e6);
    lemma_sub_split(b, pos, e1 + e2 + e3 + e4, e5);
    lemma_sub_split(b, pos, e1 + e2 + e3, e4);
    lemma_sub_split(b, pos, e1 + e2, e3);
    lemma_sub_split(b, pos, e1, e2);
    assert(b.subrange(pos, pos + 4) == magic());
    lemma_u32_rt(b, pos + 4, m.version);
    lemma_bytes_rt(b, pos + 8, m.tool);
    let p3 = pos + 8 + e3.len() as int;
    lemma_bytes_rt(b, p3, m.tool_version);
    let p4 = p3 + e4.len() as int;
    lemma_u32_rt(b, p4, m.entrypoint);
    let p5 = p4 + 4;
    assert forall|k: int| 0 <= k < m.strings.len() implies inverts_at(
        b,
        parse_bytes_fn(),
        enc_bytes_fn(),
        #[trigger] m.strings[k],
    ) by {
        lemma_bytes_inverts(b, m.strings[k]);
    }
    lemma_list_rt(b, p5, m.strings, parse_bytes_fn(), enc_bytes_fn());
    let p6 = p5 + e6.len() as int;
    assert forall|k: int| 0 <= k < m.functions.len() implies inverts_at(
        b,
        parse_function_fn(),
        enc_function_fn(),
        #[trigger] m.functions[k],
    ) by {
        lemma_function_inverts(b, m.functions[k]);
    }
    lemma_list_rt(b, p6, m.functions, parse_function_fn(), enc_function_fn());
    let p7 = p6 + e7.len() as int;
    lemma_metas_rt(b, p7, m.metadata);
}

/// Loading any buffer that begins with the encoding of a well-formed module
/// at the supported schema version succeeds with exactly that module, and
/// the loaded module's version is the supported one.
pub proof fn lemma_load_of_encoded_module(m: ModuleModel, rest: Seq<u8>)
    requires
        module_bounded(m),
        module_wf(m),
        m.version == SCHEMA_VERSION,
    ensures
        spec_load(enc_module(m) + rest) == Ok::<(ModuleModel, int), JeffError>(
            (m, enc_module(m).len() as int),
        ),
{
    let b = enc_module(m) + rest;
    assert(b.subrange(0, enc_module(m).len() as int) =~= enc_module(m));
    lemma_module_rt(b, 0, m);
}

/// Loading fixed bytes is deterministic: the borrowing and the owning entry
/// point both refine [`spec_load`], so decoding identical bytes through
/// either path yields one and the same module model, and every accessor
/// contract is a function of that model.
pub proof fn lemma_load_paths_agree(
    bytes: Seq<u8>,
    m1: ModuleModel,
    e1: int,
    m2: ModuleModel,
    e2: int,
)
    requires
        spec_load(bytes) == Ok::<(ModuleModel, int), JeffError>((m1, e1)),
        spec_load(bytes) == Ok::<(ModuleModel, int), JeffError>((m2, e2)),
    ensures
        m1 == m2,
        e1 == e2,
{
}

/// Loading any buffer that begins with the encoding of a module carrying a
/// schema version other than the supported one fails with
/// [`JeffError::InvalidVersion`] naming that version.
pub proof fn lemma_load_version_mismatch(m: ModuleModel, rest: Seq<u8>)
    requires
        module_bounded(m),
        m.version != SCHEMA_VERSION,
    ensures
        spec_load(enc_module(m) + rest) == Err::<(ModuleModel, int), JeffError>(
            JeffError::InvalidVersion { v: m.version },
        ),
{
    let b = enc_module(m) + rest;
    assert(b.subrange(0, enc_module(m).len() as int) =~= enc_module(m));
    lemma_module_rt(b, 0, m);
}

} // verus!
