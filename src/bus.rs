//! A record of register transactions, and what they mean for a register
//! file that behaves as plain memory.

use vstd::prelude::*;

verus! {

/// One register transaction: a read that returned `value`, or a write of
/// `value`, at register `reg`.
#[derive(Debug, PartialEq, Eq, Structural)]
pub struct BusOp<V> {
    pub write: bool,
    pub reg: u32,
    pub value: V,
}

/// A read of `reg` that returned `value`.
pub open spec fn read_op<V>(reg: u32, value: V) -> BusOp<V> {
    BusOp { write: false, reg, value }
}

/// A write of `value` to `reg`.
pub open spec fn write_op<V>(reg: u32, value: V) -> BusOp<V> {
    BusOp { write: true, reg, value }
}

/// `after` starts with `before`.
pub open spec fn extends<V>(after: Seq<V>, before: Seq<V>) -> bool {
    before.len() <= after.len() && after.subrange(0, before.len() as int) == before
}

/// What `after` holds beyond its prefix `before`.
pub open spec fn appended<V>(after: Seq<V>, before: Seq<V>) -> Seq<V> {
    after.subrange(before.len() as int, after.len() as int)
}

/// The register file `mem` after the transaction `op`.
pub open spec fn apply<V>(mem: spec_fn(u32) -> V, op: BusOp<V>) -> spec_fn(u32) -> V {
    if op.write {
        |r: u32| if r == op.reg { op.value } else { mem(r) }
    } else {
        mem
    }
}

/// The register file `mem` after the transactions `ops`, in order.
pub open spec fn replay<V>(mem: spec_fn(u32) -> V, ops: Seq<BusOp<V>>) -> spec_fn(u32) -> V
    decreases ops.len(),
{
    if ops.len() == 0 {
        mem
    } else {
        replay(apply(mem, ops[0]), ops.subrange(1, ops.len() as int))
    }
}

/// Every read in `ops` returned what a memory-like register file starting
/// as `mem` held at that point.
pub open spec fn coherent<V>(mem: spec_fn(u32) -> V, ops: Seq<BusOp<V>>) -> bool
    decreases ops.len(),
{
    if ops.len() == 0 {
        true
    } else {
        (ops[0].write || ops[0].value == mem(ops[0].reg)) && coherent(
            apply(mem, ops[0]),
            ops.subrange(1, ops.len() as int),
        )
    }
}

/// A register that no transaction of `ops` writes keeps its value.
pub proof fn lemma_replay_untouched<V>(mem: spec_fn(u32) -> V, ops: Seq<BusOp<V>>, r: u32)
    requires
        forall|j: int| 0 <= j < ops.len() ==> !(#[trigger] ops[j].write && ops[j].reg == r),
    ensures
        replay(mem, ops)(r) == mem(r),
    decreases ops.len(),
{
    if ops.len() > 0 {
        let tail = ops.subrange(1, ops.len() as int);
        assert forall|j: int| 0 <= j < tail.len() implies !(#[trigger] tail[j].write && tail[j].reg
            == r) by {
            assert(tail[j] == ops[j + 1]);
        }
        lemma_replay_untouched(apply(mem, ops[0]), tail, r);
    }
}

/// A register holds, after `ops`, the value of the last write to it.
pub proof fn lemma_replay_last_write<V>(mem: spec_fn(u32) -> V, ops: Seq<BusOp<V>>, k: int)
    requires
        0 <= k < ops.len(),
        ops[k].write,
        forall|j: int|
            k < j < ops.len() ==> !(#[trigger] ops[j].write && ops[j].reg == ops[k].reg),
    ensures
        replay(mem, ops)(ops[k].reg) == ops[k].value,
    decreases ops.len(),
{
    let tail = ops.subrange(1, ops.len() as int);
    if k == 0 {
        assert forall|j: int| 0 <= j < tail.len() implies !(#[trigger] tail[j].write && tail[j].reg
            == ops[0].reg) by {
            assert(tail[j] == ops[j + 1]);
        }
        lemma_replay_untouched(apply(mem, ops[0]), tail, ops[0].reg);
    } else {
        assert forall|j: int| k - 1 < j < tail.len() implies !(#[trigger] tail[j].write
            && tail[j].reg == tail[k - 1].reg) by {
            assert(tail[j] == ops[j + 1]);
        }
        lemma_replay_last_write(apply(mem, ops[0]), tail, k - 1);
    }
}

/// In a coherent run, a read returns what the transactions before it left
/// in the register.
pub proof fn lemma_coherent_read<V>(mem: spec_fn(u32) -> V, ops: Seq<BusOp<V>>, k: int)
    requires
        coherent(mem, ops),
        0 <= k < ops.len(),
        !ops[k].write,
    ensures
        ops[k].value == replay(mem, ops.subrange(0, k))(ops[k].reg),
    decreases ops.len(),
{
    let tail = ops.subrange(1, ops.len() as int);
    if k > 0 {
        lemma_coherent_read(apply(mem, ops[0]), tail, k - 1);
        let pre = ops.subrange(0, k);
        assert(pre.subrange(1, pre.len() as int) =~= tail.subrange(0, k - 1));
        assert(pre[0] == ops[0]);
    }
}

} // verus!
