//! Executable encoder for the jeff wire format.
//!
//! Each function appends the `enc_*` encoding of its argument (as given by
//! [`crate::wire`]) to the output buffer. [`encode_module`] produces a
//! complete message that [`crate::Jeff`] loads back.

use vstd::prelude::*;

use crate::data::ControlFlowData;
use crate::data::FloatArrayOpData;
use crate::data::FunctionData;
use crate::data::GateData;
use crate::data::GateTypeData;
use crate::data::IntArrayOpData;
use crate::data::MetaEntry;
use crate::data::ModuleData;
use crate::data::OpData;
use crate::data::OpTypeData;
use crate::data::QubitOpData;
use crate::data::RegionData;
use crate::data::ValueData;
use crate::model::function_bounded;
use crate::model::gate_bounded;
use crate::model::meta_bounded;
use crate::model::metas_bounded;
use crate::model::module_bounded;
use crate::model::op_bounded;
use crate::model::op_type_bounded;
use crate::model::region_bounded;
use crate::model::value_bounded;
use crate::model::values_bounded;
use crate::reader::optype::qubit::Pauli;
use crate::reader::optype::qubit::WellKnownGate;
use crate::reader::optype::qubit::QubitRegisterOp;
use crate::reader::optype::FloatOp;
use crate::reader::optype::IntOp;
use crate::types::FloatPrecision;
use crate::types::Type;
use crate::wire::concat_map;
use crate::wire::enc_bool;
use crate::wire::enc_bool_fn;
use crate::wire::enc_bytes;
use crate::wire::enc_bytes_fn;
use crate::wire::enc_control_flow;
use crate::wire::enc_float_array_op;
use crate::wire::enc_float_op;
use crate::wire::enc_function;
use crate::wire::enc_function_fn;
use crate::wire::enc_gate;
use crate::wire::enc_gate_type;
use crate::wire::enc_int_array_op;
use crate::wire::enc_int_op;
use crate::wire::enc_list;
use crate::wire::enc_meta;
use crate::wire::enc_meta_fn;
use crate::wire::enc_module;
use crate::wire::enc_op;
use crate::wire::enc_op_fn;
use crate::wire::enc_op_type;
use crate::wire::enc_opt_u32;
use crate::wire::enc_pauli;
use crate::wire::enc_pauli_fn;
use crate::wire::enc_qubit_op;
use crate::wire::enc_region;
use crate::wire::enc_region_fn;
use crate::wire::enc_type;
use crate::wire::enc_u16;
use crate::wire::enc_u16_fn;
use crate::wire::enc_u32;
use crate::wire::enc_u32_fn;
use crate::wire::enc_u64;
use crate::wire::enc_u64_fn;
use crate::wire::enc_u8;
use crate::wire::enc_u8_fn;
use crate::wire::enc_value;
use crate::wire::enc_value_fn;
use crate::wire::magic;
use crate::wire::prec_code;
use crate::wire::qureg_code;
use crate::wire::well_known_code;

verus! {

/// Extending the prefix by one element appends that element's encoding.
proof fn lemma_concat_map_take_step<T>(items: Seq<T>, f: spec_fn(T) -> Seq<u8>, i: int)
    requires
        0 <= i < items.len(),
    ensures
        concat_map(items.take(i + 1), f) == concat_map(items.take(i), f) + f(items[i]),
    decreases i,
{
    if i == 0 {
        reveal_with_fuel(concat_map, 3);
        assert(items.take(1) =~= seq![items[0]]);
        assert(items.take(0) =~= Seq::<T>::empty());
        assert(seq![items[0]].drop_first() =~= Seq::<T>::empty());
        assert(concat_map(items.take(1), f) == f(items[0]) + Seq::<u8>::empty());
        assert(f(items[0]) + Seq::<u8>::empty() =~= f(items[0]));
        assert(concat_map(items.take(0), f) + f(items[0]) =~= f(items[0]));
    } else {
        let t = items.drop_first();
        lemma_concat_map_take_step(t, f, i - 1);
        assert(items.take(i + 1).drop_first() =~= t.take(i));
        assert(items.take(i).drop_first() =~= t.take(i - 1));
        assert(items.take(i + 1)[0] == items[0]);
        assert(items.take(i)[0] == items[0]);
        assert(t[i - 1] == items[i]);
        assert(f(items[0]) + (concat_map(t.take(i - 1), f) + f(t[i - 1])) =~= (f(items[0])
            + concat_map(t.take(i - 1), f)) + f(t[i - 1]));
    }
}

fn e_u8(out: &mut Vec<u8>, v: u8)
    ensures
        final (out)@ == old(out)@ + enc_u8(v),
{
    out.push(v);
    proof {
        assert(old(out)@.push(v) =~= old(out)@ + enc_u8(v));
    }
}

fn e_bool(out: &mut Vec<u8>, v: bool)
    ensures
        final (out)@ == old(out)@ + enc_bool(v),
{
    out.push(
        if v {
            1
        } else {
            0
        },
    );
    proof {
        assert(final (out)@ =~= old(out)@ + enc_bool(v));
    }
}

fn e_u16(out: &mut Vec<u8>, v: u16)
    ensures
        final (out)@ == old(out)@ + enc_u16(v),
{
    out.push((v & 0xff) as u8);
    out.push(((v >> 8u16) & 0xff) as u8);
    proof {
        assert(final (out)@ =~= old(out)@ + enc_u16(v));
    }
}

fn e_u32(out: &mut Vec<u8>, v: u32)
    ensures
        final (out)@ == old(out)@ + enc_u32(v),
{
    out.push((v & 0xff) as u8);
    out.push(((v >> 8u32) & 0xff) as u8);
    out.push(((v >> 16u32) & 0xff) as u8);
    out.push(((v >> 24u32) & 0xff) as u8);
    proof {
        assert(final (out)@ =~= old(out)@ + enc_u32(v));
    }
}

fn e_u64(out: &mut Vec<u8>, v: u64)
    ensures
        final (out)@ == old(out)@ + enc_u64(v),
{
    out.push((v & 0xff) as u8);
    out.push(((v >> 8u64) & 0xff) as u8);
    out.push(((v >> 16u64) & 0xff) as u8);
    out.push(((v >> 24u64) & 0xff) as u8);
    out.push(((v >> 32u64) & 0xff) as u8);
    out.push(((v >> 40u64) & 0xff) as u8);
    out.push(((v >> 48u64) & 0xff) as u8);
    out.push(((v >> 56u64) & 0xff) as u8);
    proof {
        assert(final (out)@ =~= old(out)@ + enc_u64(v));
    }
}

fn e_bytes(out: &mut Vec<u8>, v: &Vec<u8>)
    requires
        v@.len() < crate::model::count_limit(),
    ensures
        final (out)@ == old(out)@ + enc_bytes(v@),
{
    e_u32(out, v.len() as u32);
    let ghost mid = out@;
    let n: usize = v.len();
    let mut i: usize = 0;
    while i < n
        invariant
            n == v@.len(),
            i <= n,
            out@ == mid + v@.take(i as int),
        decreases n - i,
    {
        out.push(v[i]);
        proof {
            assert(mid + v@.take(i as int) + seq![v@[i as int]] =~= mid + v@.take(i as int + 1));
        }
        i = i + 1;
    }
    proof {
        assert(v@.take(n as int) =~= v@);
        assert(mid + v@ =~= old(out)@ + enc_bytes(v@));
    }
}

fn e_u32_list(out: &mut Vec<u8>, v: &Vec<u32>)
    requires
        v@.len() < crate::model::count_limit(),
    ensures
        final (out)@ == old(out)@ + enc_list(v@, enc_u32_fn()),
{
    let ghost items = v@;
    let ghost f = enc_u32_fn();
    e_u32(out, v.len() as u32);
    let ghost mid = out@;
    let n: usize = v.len();
    let mut i: usize = 0;
    while i < n
        invariant
            items == v@,
            f == enc_u32_fn(),
            v@.len() < crate::model::count_limit(),
            n == v@.len(),
            items.len() == n,
            i <= n,
            out@ == mid + concat_map(items.take(i as int), f),
        decreases n - i,
    {
        proof {
            lemma_concat_map_take_step(items, f, i as int);
            assert(items[i as int] == v@[i as int]);
        }
        e_u32(out, v[i]);
        proof {
            assert((mid + concat_map(items.take(i as int), f)) + enc_u32(v@[i as int]) =~= mid + concat_map(
                items.take(i as int + 1),
                f,
            ));
        }
        i = i + 1;
    }
    proof {
        assert(items.take(n as int) =~= items);
        assert(mid + concat_map(items, f) =~= old(out)@ + enc_list(items, f));
    }
}

fn e_bool_list(out: &mut Vec<u8>, v: &Vec<bool>)
    requires
        v@.len() < crate::model::count_limit(),
    ensures
        final (out)@ == old(out)@ + enc_list(v@, enc_bool_fn()),
{
    let ghost items = v@;
    let ghost f = enc_bool_fn();
    e_u32(out, v.len() as u32);
    let ghost mid = out@;
    let n: usize = v.len();
    let mut i: usize = 0;
    while i < n
        invariant
            items == v@,
            f == enc_bool_fn(),
            v@.len() < crate::model::count_limit(),
            n == v@.len(),
            items.len() == n,
            i <= n,
            out@ == mid + concat_map(items.take(i as int), f),
        decreases n - i,
    {
        proof {
            lemma_concat_map_take_step(items, f, i as int);
            assert(items[i as int] == v@[i as int]);
        }
        e_bool(out, v[i]);
        proof {
            assert((mid + concat_map(items.take(i as int), f)) + enc_bool(v@[i as int]) =~= mid + concat_map(
                items.take(i as int + 1),
                f,
            ));
        }
        i = i + 1;
    }
    proof {
        assert(items.take(n as int) =~= items);
        assert(mid + concat_map(items, f) =~= old(out)@ + enc_list(items, f));
    }
}

fn e_u8_list(out: &mut Vec<u8>, v: &Vec<u8>)
    requires
        v@.len() < crate::model::count_limit(),
    ensures
        final (out)@ == old(out)@ + enc_list(v@, enc_u8_fn()),
{
    let ghost items = v@;
    let ghost f = enc_u8_fn();
    e_u32(out, v.len() as u32);
    let ghost mid = out@;
    let n: usize = v.len();
    let mut i: usize = 0;
    while i < n
        invariant
            items == v@,
            f == enc_u8_fn(),
            v@.len() < crate::model::count_limit(),
            n == v@.len(),
            items.len() == n,
            i <= n,
            out@ == mid + concat_map(items.take(i as int), f),
        decreases n - i,
    {
        proof {
            lemma_concat_map_take_step(items, f, i as int);
            assert(items[i as int] == v@[i as int]);
        }
        e_u8(out, v[i]);
        proof {
            assert((mid + concat_map(items.take(i as int), f)) + enc_u8(v@[i as int]) =~= mid + concat_map(
                items.take(i as int + 1),
                f,
            ));
        }
        i = i + 1;
    }
    proof {
        assert(items.take(n as int) =~= items);
        assert(mid + concat_map(items, f) =~= old(out)@ + enc_list(items, f));
    }
}

fn e_u16_list(out: &mut Vec<u8>, v: &Vec<u16>)
    requires
        v@.len() < crate::model::count_limit(),
    ensures
        final (out)@ == old(out)@ + enc_list(v@, enc_u16_fn()),
{
    let ghost items = v@;
    let ghost f = enc_u16_fn();
    e_u32(out, v.len() as u32);
    let ghost mid = out@;
    let n: usize = v.len();
    let mut i: usize = 0;
    while i < n
        invariant
            items == v@,
            f == enc_u16_fn(),
            v@.len() < crate::model::count_limit(),
            n == v@.len(),
            items.len() == n,
            i <= n,
            out@ == mid + concat_map(items.take(i as int), f),
        decreases n - i,
    {
        proof {
            lemma_concat_map_take_step(items, f, i as int);
            assert(items[i as int] == v@[i as int]);
        }
        e_u16(out, v[i]);
        proof {
            assert((mid + concat_map(items.take(i as int), f)) + enc_u16(v@[i as int]) =~= mid + concat_map(
                items.take(i as int + 1),
                f,
            ));
        }
        i = i + 1;
    }
    proof {
        assert(items.take(n as int) =~= items);
        assert(mid + concat_map(items, f) =~= old(out)@ + enc_list(items, f));
    }
}

fn e_u64_list(out: &mut Vec<u8>, v: &Vec<u64>)
    requires
        v@.len() < crate::model::count_limit(),
    ensures
        final (out)@ == old(out)@ + enc_list(v@, enc_u64_fn()),
{
    let ghost items = v@;
    let ghost f = enc_u64_fn();
    e_u32(out, v.len() as u32);
    let ghost mid = out@;
    let n: usize = v.len();
    let mut i: usize = 0;
    while i < n
        invariant
            items == v@,
            f == enc_u64_fn(),
            v@.len() < crate::model::count_limit(),
            n == v@.len(),
            items.len() == n,
            i <= n,
            out@ == mid + concat_map(items.take(i as int), f),
        decreases n - i,
    {
        proof {
            lemma_concat_map_take_step(items, f, i as int);
            assert(items[i as int] == v@[i as int]);
        }
        e_u64(out, v[i]);
        proof {
            assert((mid + concat_map(items.take(i as int), f)) + enc_u64(v@[i as int]) =~= mid + concat_map(
                items.take(i as int + 1),
                f,
            ));
        }
        i = i + 1;
    }
    proof {
        assert(items.take(n as int) =~= items);
        assert(mid + concat_map(items, f) =~= old(out)@ + enc_list(items, f));
    }
}

fn e_pauli_list(out: &mut Vec<u8>, v: &Vec<Pauli>)
    requires
        v@.len() < crate::model::count_limit(),
    ensures
        final (out)@ == old(out)@ + enc_list(v@, enc_pauli_fn()),
{
    let ghost items = v@;
    let ghost f = enc_pauli_fn();
    e_u32(out, v.len() as u32);
    let ghost mid = out@;
    let n: usize = v.len();
    let mut i: usize = 0;
    while i < n
        invariant
            items == v@,
            f == enc_pauli_fn(),
            v@.len() < crate::model::count_limit(),
            n == v@.len(),
            items.len() == n,
            i <= n,
            out@ == mid + concat_map(items.take(i as int), f),
        decreases n - i,
    {
        proof {
            lemma_concat_map_take_step(items, f, i as int);
            assert(items[i as int] == v@[i as int]);
        }
        e_pauli(out, v[i]);
        proof {
            assert((mid + concat_map(items.take(i as int), f)) + enc_pauli(v@[i as int]) =~= mid + concat_map(
                items.take(i as int + 1),
                f,
            ));
        }
        i = i + 1;
    }
    proof {
        assert(items.take(n as int) =~= items);
        assert(mid + concat_map(items, f) =~= old(out)@ + enc_list(items, f));
    }
}

fn e_bytes_list(out: &mut Vec<u8>, v: &Vec<Vec<u8>>)
    requires
        v@.len() < crate::model::count_limit(),
        forall|k: int| 0 <= k < v@.len() ==> (#[trigger] crate::data::strings_view(v@)[k]).len()
            < crate::model::count_limit(),
    ensures
        final (out)@ == old(out)@ + enc_list(crate::data::strings_view(v@), enc_bytes_fn()),
{
    let ghost items = crate::data::strings_view(v@);
    let ghost f = enc_bytes_fn();
    e_u32(out, v.len() as u32);
    let ghost mid = out@;
    let n: usize = v.len();
    let mut i: usize = 0;
    while i < n
        invariant
            items == crate::data::strings_view(v@),
            f == enc_bytes_fn(),
            v@.len() < crate::model::count_limit(),
            forall|k: int| 0 <= k < v@.len() ==> (#[trigger] crate::data::strings_view(v@)[k]).len()
            < crate::model::count_limit(),
            n == v@.len(),
            items.len() == n,
            i <= n,
            out@ == mid + concat_map(items.take(i as int), f),
        decreases n - i,
    {
        proof {
            lemma_concat_map_take_step(items, f, i as int);
            assert(items[i as int] == v@[i as int]@);
        }
        e_bytes(out, &v[i]);
        proof {
            assert((mid + concat_map(items.take(i as int), f)) + enc_bytes(v@[i as int]@) =~= mid + concat_map(
                items.take(i as int + 1),
                f,
            ));
        }
        i = i + 1;
    }
    proof {
        assert(items.take(n as int) =~= items);
        assert(mid + concat_map(items, f) =~= old(out)@ + enc_list(items, f));
    }
}

fn e_metas(out: &mut Vec<u8>, v: &Vec<MetaEntry>)
    requires
        metas_bounded(crate::data::metas_view(v@)),
    ensures
        final (out)@ == old(out)@ + enc_list(crate::data::metas_view(v@), enc_meta_fn()),
{
    let ghost items = crate::data::metas_view(v@);
    let ghost f = enc_meta_fn();
    e_u32(out, v.len() as u32);
    let ghost mid = out@;
    let n: usize = v.len();
    let mut i: usize = 0;
    while i < n
        invariant
            items == crate::data::metas_view(v@),
            f == enc_meta_fn(),
            metas_bounded(crate::data::metas_view(v@)),
            n == v@.len(),
            items.len() == n,
            i <= n,
            out@ == mid + concat_map(items.take(i as int), f),
        decreases n - i,
    {
        proof {
            lemma_concat_map_take_step(items, f, i as int);
            assert(items[i as int] == v@[i as int]@);
        }
        e_meta(out, &v[i]);
        proof {
            assert((mid + concat_map(items.take(i as int), f)) + enc_meta(v@[i as int]@) =~= mid + concat_map(
                items.take(i as int + 1),
                f,
            ));
        }
        i = i + 1;
    }
    proof {
        assert(items.take(n as int) =~= items);
        assert(mid + concat_map(items, f) =~= old(out)@ + enc_list(items, f));
    }
}

fn e_values(out: &mut Vec<u8>, v: &Vec<ValueData>)
    requires
        values_bounded(crate::data::values_view(v@)),
    ensures
        final (out)@ == old(out)@ + enc_list(crate::data::values_view(v@), enc_value_fn()),
{
    let ghost items = crate::data::values_view(v@);
    let ghost f = enc_value_fn();
    e_u32(out, v.len() as u32);
    let ghost mid = out@;
    let n: usize = v.len();
    let mut i: usize = 0;
    while i < n
        invariant
            items == crate::data::values_view(v@),
            f == enc_value_fn(),
            values_bounded(crate::data::values_view(v@)),
            n == v@.len(),
            items.len() == n,
            i <= n,
            out@ == mid + concat_map(items.take(i as int), f),
        decreases n - i,
    {
        proof {
            lemma_concat_map_take_step(items, f, i as int);
            assert(items[i as int] == v@[i as int]@);
        }
        e_value(out, &v[i]);
        proof {
            assert((mid + concat_map(items.take(i as int), f)) + enc_value(v@[i as int]@) =~= mid + concat_map(
                items.take(i as int + 1),
                f,
            ));
        }
        i = i + 1;
    }
    proof {
        assert(items.take(n as int) =~= items);
        assert(mid + concat_map(items, f) =~= old(out)@ + enc_list(items, f));
    }
}

fn e_ops(out: &mut Vec<u8>, v: &Vec<OpData>)
    requires
        crate::data::ops_view(v@).len() < crate::model::count_limit(),
        forall|k: int| 0 <= k < v@.len() ==> op_bounded(#[trigger] crate::data::ops_view(v@)[k]),
    ensures
        final (out)@ == old(out)@ + enc_list(crate::data::ops_view(v@), enc_op_fn()),
{
    let ghost items = crate::data::ops_view(v@);
    let ghost f = enc_op_fn();
    e_u32(out, v.len() as u32);
    let ghost mid = out@;
    let n: usize = v.len();
    let mut i: usize = 0;
    while i < n
        invariant
            items == crate::data::ops_view(v@),
            f == enc_op_fn(),
            crate::data::ops_view(v@).len() < crate::model::count_limit(),
            forall|k: int| 0 <= k < v@.len() ==> op_bounded(#[trigger] crate::data::ops_view(v@)[k]),
            n == v@.len(),
            items.len() == n,
            i <= n,
            out@ == mid + concat_map(items.take(i as int), f),
        decreases n - i,
    {
        proof {
            lemma_concat_map_take_step(items, f, i as int);
            assert(items[i as int] == v@[i as int]@);
        }
        e_op(out, &v[i]);
        proof {
            assert((mid + concat_map(items.take(i as int), f)) + enc_op(v@[i as int]@) =~= mid + concat_map(
                items.take(i as int + 1),
                f,
            ));
        }
        i = i + 1;
    }
    proof {
        assert(items.take(n as int) =~= items);
        assert(mid + concat_map(items, f) =~= old(out)@ + enc_list(items, f));
    }
}

fn e_regions(out: &mut Vec<u8>, v: &Vec<RegionData>)
    requires
        crate::data::regions_view(v@).len() < crate::model::count_limit(),
        forall|k: int| 0 <= k < v@.len() ==> region_bounded(#[trigger] crate::data::regions_view(v@)[k]),
    ensures
        final (out)@ == old(out)@ + enc_list(crate::data::regions_view(v@), enc_region_fn()),
{
    let ghost items = crate::data::regions_view(v@);
    let ghost f = enc_region_fn();
    e_u32(out, v.len() as u32);
    let ghost mid = out@;
    let n: usize = v.len();
    let mut i: usize = 0;
    while i < n
        invariant
            items == crate::data::regions_view(v@),
            f == enc_region_fn(),
            crate::data::regions_view(v@).len() < crate::model::count_limit(),
            forall|k: int| 0 <= k < v@.len() ==> region_bounded(#[trigger] crate::data::regions_view(v@)[k]),
            n == v@.len(),
            items.len() == n,
            i <= n,
            out@ == mid + concat_map(items.take(i as int), f),
        decreases n - i,
    {
        proof {
            lemma_concat_map_take_step(items, f, i as int);
            assert(items[i as int] == v@[i as int]@);
        }
        e_region(out, &v[i]);
        proof {
            assert((mid + concat_map(items.take(i as int), f)) + enc_region(v@[i as int]@) =~= mid + concat_map(
                items.take(i as int + 1),
                f,
            ));
        }
        i = i + 1;
    }
    proof {
        assert(items.take(n as int) =~= items);
        assert(mid + concat_map(items, f) =~= old(out)@ + enc_list(items, f));
    }
}

fn e_functions(out: &mut Vec<u8>, v: &Vec<FunctionData>)
    requires
        crate::data::functions_view(v@).len() < crate::model::count_limit(),
        forall|k: int| 0 <= k < v@.len() ==> function_bounded(#[trigger] crate::data::functions_view(v@)[k]),
    ensures
        final (out)@ == old(out)@ + enc_list(crate::data::functions_view(v@), enc_function_fn()),
{
    let ghost items = crate::data::functions_view(v@);
    let ghost f = enc_function_fn();
    e_u32(out, v.len() as u32);
    let ghost mid = out@;
    let n: usize = v.len();
    let mut i: usize = 0;
    while i < n
        invariant
            items == crate::data::functions_view(v@),
            f == enc_function_fn(),
            crate::data::functions_view(v@).len() < crate::model::count_limit(),
            forall|k: int| 0 <= k < v@.len() ==> function_bounded(#[trigger] crate::data::functions_view(v@)[k]),
            n == v@.len(),
            items.len() == n,
            i <= n,
            out@ == mid + concat_map(items.take(i as int), f),
        decreases n - i,
    {
        proof {
            lemma_concat_map_take_step(items, f, i as int);
            assert(items[i as int] == v@[i as int]@);
        }
        e_function(out, &v[i]);
        proof {
            assert((mid + concat_map(items.take(i as int), f)) + enc_function(v@[i as int]@) =~= mid + concat_map(
                items.take(i as int + 1),
                f,
            ));
        }
        i = i + 1;
    }
    proof {
        assert(items.take(n as int) =~= items);
        assert(mid + concat_map(items, f) =~= old(out)@ + enc_list(items, f));
    }
}

fn e_pauli(out: &mut Vec<u8>, p: Pauli)
    ensures
        final (out)@ == old(out)@ + enc_pauli(p),
{
    match p {
        Pauli::X => e_u8(out, 0),
        Pauli::Y => e_u8(out, 1),
        Pauli::Z => e_u8(out, 2),
        Pauli::I => e_u8(out, 3),
    }
}

fn e_well_known(out: &mut Vec<u8>, g: WellKnownGate)
    ensures
        final (out)@ == old(out)@ + enc_u8(well_known_code(g)),
{
    match g {
        WellKnownGate::GPhase => e_u8(out, 0),
        WellKnownGate::I => e_u8(out, 1),
        WellKnownGate::X => e_u8(out, 2),
        WellKnownGate::Y => e_u8(out, 3),
        WellKnownGate::Z => e_u8(out, 4),
        WellKnownGate::S => e_u8(out, 5),
        WellKnownGate::T => e_u8(out, 6),
        WellKnownGate::R1 => e_u8(out, 7),
        WellKnownGate::Rx => e_u8(out, 8),
        WellKnownGate::Ry => e_u8(out, 9),
        WellKnownGate::Rz => e_u8(out, 10),
        WellKnownGate::H => e_u8(out, 11),
        WellKnownGate::U => e_u8(out, 12),
        WellKnownGate::Swap => e_u8(out, 13),
    }
}

fn e_qureg_op(out: &mut Vec<u8>, q: QubitRegisterOp)
    ensures
        final (out)@ == old(out)@ + enc_u8(qureg_code(q)),
{
    match q {
        QubitRegisterOp::Alloc => e_u8(out, 0),
        QubitRegisterOp::Free => e_u8(out, 1),
        QubitRegisterOp::FreeZero => e_u8(out, 2),
        QubitRegisterOp::ExtractIndex => e_u8(out, 3),
        QubitRegisterOp::InsertIndex => e_u8(out, 4),
        QubitRegisterOp::ExtractSlice => e_u8(out, 5),
        QubitRegisterOp::InsertSlice => e_u8(out, 6),
        QubitRegisterOp::Length => e_u8(out, 7),
        QubitRegisterOp::Split => e_u8(out, 8),
        QubitRegisterOp::Join => e_u8(out, 9),
        QubitRegisterOp::Create => e_u8(out, 10),
    }
}

fn e_prec(out: &mut Vec<u8>, p: FloatPrecision)
    ensures
        final (out)@ == old(out)@ + enc_u8(prec_code(p)),
{
    match p {
        FloatPrecision::Float32 => e_u8(out, 0),
        FloatPrecision::Float64 => e_u8(out, 1),
    }
}

fn e_type(out: &mut Vec<u8>, t: &Type)
    ensures
        final (out)@ == old(out)@ + enc_type(*t),
{
    match t {
        Type::Qubit => e_u8(out, 0),
        Type::QubitRegister => e_u8(out, 1),
        Type::Int { bits } => {
            e_u8(out, 2);
            e_u8(out, *bits);
        },
        Type::IntArray { bits } => {
            e_u8(out, 3);
            e_u8(out, *bits);
        },
        Type::Float { precision } => {
            e_u8(out, 4);
            e_prec(out, *precision);
        },
        Type::FloatArray { precision } => {
            e_u8(out, 5);
            e_prec(out, *precision);
        },
    }
    proof {
        assert(final (out)@ =~= old(out)@ + enc_type(*t));
    }
}

fn e_meta(out: &mut Vec<u8>, m: &MetaEntry)
    requires
        meta_bounded(m@),
    ensures
        final (out)@ == old(out)@ + enc_meta(m@),
{
    e_u16(out, m.name);
    e_bytes(out, &m.value);
    proof {
        assert(final (out)@ =~= old(out)@ + enc_meta(m@));
    }
}

fn e_value(out: &mut Vec<u8>, v: &ValueData)
    requires
        value_bounded(v@),
    ensures
        final (out)@ == old(out)@ + enc_value(v@),
{
    e_type(out, &v.ty);
    e_metas(out, &v.metadata);
    proof {
        assert(final (out)@ =~= old(out)@ + enc_value(v@));
    }
}

fn e_gate_type(out: &mut Vec<u8>, g: &GateTypeData)
    requires
        crate::model::gate_type_bounded(g@),
    ensures
        final (out)@ == old(out)@ + enc_gate_type(g@),
{
    match g {
        GateTypeData::WellKnown(wk) => {
            e_u8(out, 0);
            e_well_known(out, *wk);
        },
        GateTypeData::Custom { name, num_qubits, num_params } => {
            e_u8(out, 1);
            e_u16(out, *name);
            e_u8(out, *num_qubits);
            e_u8(out, *num_params);
        },
        GateTypeData::PauliProdRotation { paulis } => {
            e_u8(out, 2);
            e_pauli_list(out, paulis);
        },
    }
    proof {
        assert(final (out)@ =~= old(out)@ + enc_gate_type(g@));
    }
}

fn e_gate(out: &mut Vec<u8>, g: &GateData)
    requires
        gate_bounded(g@),
    ensures
        final (out)@ == old(out)@ + enc_gate(g@),
{
    e_u8(out, g.control_qubits);
    e_bool(out, g.adjoint);
    e_u8(out, g.power);
    e_gate_type(out, &g.gate_type);
    proof {
        assert(final (out)@ =~= old(out)@ + enc_gate(g@));
    }
}

fn e_qubit_op(out: &mut Vec<u8>, q: &QubitOpData)
    requires
        op_type_bounded(crate::model::OpTypeModel::QubitOp(q@)),
    ensures
        final (out)@ == old(out)@ + enc_qubit_op(q@),
{
    match q {
        QubitOpData::Alloc => e_u8(out, 0),
        QubitOpData::Free => e_u8(out, 1),
        QubitOpData::FreeZero => e_u8(out, 2),
        QubitOpData::Measure => e_u8(out, 3),
        QubitOpData::MeasureNd => e_u8(out, 4),
        QubitOpData::Reset => e_u8(out, 5),
        QubitOpData::Gate(g) => {
            e_u8(out, 6);
            e_gate(out, g);
        },
    }
    proof {
        assert(final (out)@ =~= old(out)@ + enc_qubit_op(q@));
    }
}

fn e_int_op(out: &mut Vec<u8>, o: &IntOp)
    ensures
        final (out)@ == old(out)@ + enc_int_op(*o),
{
    match o {
        IntOp::Const1(v) => {
            e_u8(out, 0);
            e_bool(out, *v);
        },
        IntOp::Const8(v) => {
            e_u8(out, 1);
            e_u8(out, *v);
        },
        IntOp::Const16(v) => {
            e_u8(out, 2);
            e_u16(out, *v);
        },
        IntOp::Const32(v) => {
            e_u8(out, 3);
            e_u32(out, *v);
        },
        IntOp::Const64(v) => {
            e_u8(out, 4);
            e_u64(out, *v);
        },
        IntOp::Add => e_u8(out, 5),
        IntOp::Sub => e_u8(out, 6),
        IntOp::Mul => e_u8(out, 7),
        IntOp::DivS => e_u8(out, 8),
        IntOp::DivU => e_u8(out, 9),
        IntOp::Pow => e_u8(out, 10),
        IntOp::And => e_u8(out, 11),
        IntOp::Or => e_u8(out, 12),
        IntOp::Xor => e_u8(out, 13),
        IntOp::Not => e_u8(out, 14),
        IntOp::MinS => e_u8(out, 15),
        IntOp::MinU => e_u8(out, 16),
        IntOp::MaxS => e_u8(out, 17),
        IntOp::MaxU => e_u8(out, 18),
        IntOp::Eq => e_u8(out, 19),
        IntOp::LtS => e_u8(out, 20),
        IntOp::LteS => e_u8(out, 21),
        IntOp::LtU => e_u8(out, 22),
        IntOp::LteU => e_u8(out, 23),
        IntOp::Abs => e_u8(out, 24),
        IntOp::RemS => e_u8(out, 25),
        IntOp::RemU => e_u8(out, 26),
        IntOp::Shl => e_u8(out, 27),
        IntOp::Shr => e_u8(out, 28),
    }
    proof {
        assert(final (out)@ =~= old(out)@ + enc_int_op(*o));
    }
}

fn e_int_array_op(out: &mut Vec<u8>, o: &IntArrayOpData)
    requires
        op_type_bounded(crate::model::OpTypeModel::IntArrayOp(o@)),
    ensures
        final (out)@ == old(out)@ + enc_int_array_op(o@),
{
    match o {
        IntArrayOpData::ConstArray1(v) => {
            e_u8(out, 0);
            e_bool_list(out, v);
        },
        IntArrayOpData::ConstArray8(v) => {
            e_u8(out, 1);
            e_u8_list(out, v);
        },
        IntArrayOpData::ConstArray16(v) => {
            e_u8(out, 2);
            e_u16_list(out, v);
        },
        IntArrayOpData::ConstArray32(v) => {
            e_u8(out, 3);
            e_u32_list(out, v);
        },
        IntArrayOpData::ConstArray64(v) => {
            e_u8(out, 4);
            e_u64_list(out, v);
        },
        IntArrayOpData::Zero { bits } => {
            e_u8(out, 5);
            e_u8(out, *bits);
        },
        IntArrayOpData::GetIndex => e_u8(out, 6),
        IntArrayOpData::SetIndex => e_u8(out, 7),
        IntArrayOpData::Length => e_u8(out, 8),
        IntArrayOpData::Create => e_u8(out, 9),
    }
    proof {
        assert(final (out)@ =~= old(out)@ + enc_int_array_op(o@));
    }
}

fn e_float_op(out: &mut Vec<u8>, o: &FloatOp)
    ensures
        final (out)@ == old(out)@ + enc_float_op(*o),
{
    match o {
        FloatOp::Const32(v) => {
            e_u8(out, 0);
            e_u32(out, *v);
        },
        FloatOp::Const64(v) => {
            e_u8(out, 1);
            e_u64(out, *v);
        },
        FloatOp::Add => e_u8(out, 2),
        FloatOp::Sub => e_u8(out, 3),
        FloatOp::Mul => e_u8(out, 4),
        FloatOp::Pow => e_u8(out, 5),
        FloatOp::Eq => e_u8(out, 6),
        FloatOp::Lt => e_u8(out, 7),
        FloatOp::Lte => e_u8(out, 8),
        FloatOp::Sqrt => e_u8(out, 9),
        FloatOp::Abs => e_u8(out, 10),
        FloatOp::Ceil => e_u8(out, 11),
        FloatOp::Floor => e_u8(out, 12),
        FloatOp::IsNan => e_u8(out, 13),
        FloatOp::IsInf => e_u8(out, 14),
        FloatOp::Exp => e_u8(out, 15),
        FloatOp::Log => e_u8(out, 16),
        FloatOp::Sin => e_u8(out, 17),
        FloatOp::Cos => e_u8(out, 18),
        FloatOp::Tan => e_u8(out, 19),
        FloatOp::Asin => e_u8(out, 20),
        FloatOp::Acos => e_u8(out, 21),
        FloatOp::Atan => e_u8(out, 22),
        FloatOp::Atan2 => e_u8(out, 23),
        FloatOp::Sinh => e_u8(out, 24),
        FloatOp::Cosh => e_u8(out, 25),
        FloatOp::Tanh => e_u8(out, 26),
        FloatOp::Asinh => e_u8(out, 27),
        FloatOp::Acosh => e_u8(out, 28),
        FloatOp::Atanh => e_u8(out, 29),
        FloatOp::Max => e_u8(out, 30),
        FloatOp::Min => e_u8(out, 31),
    }
    proof {
        assert(final (out)@ =~= old(out)@ + enc_float_op(*o));
    }
}

fn e_float_array_op(out: &mut Vec<u8>, o: &FloatArrayOpData)
    requires
        op_type_bounded(crate::model::OpTypeModel::FloatArrayOp(o@)),
    ensures
        final (out)@ == old(out)@ + enc_float_array_op(o@),
{
    match o {
        FloatArrayOpData::Const32(v) => {
            e_u8(out, 0);
            e_u32_list(out, v);
        },
        FloatArrayOpData::Const64(v) => {
            e_u8(out, 1);
            e_u64_list(out, v);
        },
        FloatArrayOpData::Zero { precision } => {
            e_u8(out, 2);
            e_prec(out, *precision);
        },
        FloatArrayOpData::GetIndex => e_u8(out, 3),
        FloatArrayOpData::SetIndex => e_u8(out, 4),
        FloatArrayOpData::Length => e_u8(out, 5),
        FloatArrayOpData::Create => e_u8(out, 6),
    }
    proof {
        assert(final (out)@ =~= old(out)@ + enc_float_array_op(o@));
    }
}

fn e_opt_u32(out: &mut Vec<u8>, o: &Option<u32>)
    ensures
        final (out)@ == old(out)@ + enc_opt_u32(*o),
{
    match o {
        None => e_u8(out, 0),
        Some(v) => {
            e_u8(out, 1);
            e_u32(out, *v);
        },
    }
    proof {
        assert(final (out)@ =~= old(out)@ + enc_opt_u32(*o));
    }
}

fn e_control_flow(out: &mut Vec<u8>, cf: &ControlFlowData)
    requires
        op_type_bounded(crate::model::OpTypeModel::ControlFlowOp(cf@)),
    ensures
        final (out)@ == old(out)@ + enc_control_flow(cf@),
{
    match cf {
        ControlFlowData::Switch { branches, default } => {
            e_u8(out, 0);
            e_u32_list(out, branches);
            e_opt_u32(out, default);
        },
        ControlFlowData::For { region } => {
            e_u8(out, 1);
            e_u32(out, *region);
        },
        ControlFlowData::While { condition, body } => {
            e_u8(out, 2);
            e_u32(out, *condition);
            e_u32(out, *body);
        },
        ControlFlowData::DoWhile { body, condition } => {
            e_u8(out, 3);
            e_u32(out, *body);
            e_u32(out, *condition);
        },
    }
    proof {
        assert(final (out)@ =~= old(out)@ + enc_control_flow(cf@));
    }
}

fn e_op_type(out: &mut Vec<u8>, t: &OpTypeData)
    requires
        op_type_bounded(t@),
    ensures
        final (out)@ == old(out)@ + enc_op_type(t@),
{
    match t {
        OpTypeData::QubitOp(q) => {
            e_u8(out, 0);
            e_qubit_op(out, q);
        },
        OpTypeData::QubitRegisterOp(q) => {
            e_u8(out, 1);
            e_qureg_op(out, *q);
        },
        OpTypeData::IntOp(o) => {
            e_u8(out, 2);
            e_int_op(out, o);
        },
        OpTypeData::IntArrayOp(o) => {
            e_u8(out, 3);
            e_int_array_op(out, o);
        },
        OpTypeData::FloatOp(o) => {
            e_u8(out, 4);
            e_float_op(out, o);
        },
        OpTypeData::FloatArrayOp(o) => {
            e_u8(out, 5);
            e_float_array_op(out, o);
        },
        OpTypeData::ControlFlowOp(cf) => {
            e_u8(out, 6);
            e_control_flow(out, cf);
        },
        OpTypeData::FuncOp(f) => {
            e_u8(out, 7);
            e_u32(out, f.func_idx);
        },
    }
    proof {
        assert(final (out)@ =~= old(out)@ + enc_op_type(t@));
    }
}

#[verifier::rlimit(100)]
fn e_op(out: &mut Vec<u8>, o: &OpData)
    requires
        op_bounded(o@),
    ensures
        final (out)@ == old(out)@ + enc_op(o@),
{
    e_op_type(out, &o.op_type);
    e_u32_list(out, &o.inputs);
    e_u32_list(out, &o.outputs);
    e_metas(out, &o.metadata);
    proof {
        assert(final (out)@ =~= old(out)@ + enc_op(o@));
    }
}

#[verifier::rlimit(100)]
fn e_region(out: &mut Vec<u8>, r: &RegionData)
    requires
        region_bounded(r@),
    ensures
        final (out)@ == old(out)@ + enc_region(r@),
{
    e_u32_list(out, &r.sources);
    e_u32_list(out, &r.targets);
    e_ops(out, &r.operations);
    e_metas(out, &r.metadata);
    proof {
        assert(final (out)@ =~= old(out)@ + enc_region(r@));
    }
}

#[verifier::rlimit(100)]
fn e_function(out: &mut Vec<u8>, f: &FunctionData)
    requires
        function_bounded(f@),
    ensures
        final (out)@ == old(out)@ + enc_function(f@),
{
    match f {
        FunctionData::Definition(d) => {
            e_u8(out, 0);
            e_u16(out, d.name);
            e_values(out, &d.values);
            e_regions(out, &d.regions);
            e_metas(out, &d.metadata);
        },
        FunctionData::Declaration(d) => {
            e_u8(out, 1);
            e_u16(out, d.name);
            e_values(out, &d.inputs);
            e_values(out, &d.outputs);
            e_metas(out, &d.metadata);
        },
    }
    proof {
        assert(final (out)@ =~= old(out)@ + enc_function(f@));
    }
}

/// Encodes a module as one complete jeff message.
pub fn encode_module(m: &ModuleData) -> (r: Vec<u8>)
    requires
        module_bounded(m@),
    ensures
        r@ == enc_module(m@),
{
    let mut out: Vec<u8> = Vec::new();
    e_u8(&mut out, 0x6a);
    e_u8(&mut out, 0x65);
    e_u8(&mut out, 0x66);
    e_u8(&mut out, 0x66);
    proof {
        assert(out@ =~= magic());
    }
    e_u32(&mut out, m.version);
    e_bytes(&mut out, &m.tool);
    e_bytes(&mut out, &m.tool_version);
    e_u32(&mut out, m.entrypoint);
    e_bytes_list(&mut out, &m.strings);
    e_functions(&mut out, &m.functions);
    e_metas(&mut out, &m.metadata);
    proof {
        assert(out@ =~= enc_module(m@));
    }
    out
}
} // verus!
