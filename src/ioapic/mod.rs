//! The I/O APIC: identity, version, arbitration and the redirection table.

pub mod irq_entry;

use crate::bus::{
    appended, coherent, extends, lemma_coherent_read, lemma_replay_last_write, lemma_replay_untouched,
    read_op, replay, write_op, BusOp,
};
use irq_entry::{
    hi, hi_spec, irq_flags_bits, lemma_selector_layout, irq_mode_bits, lo, lo_spec, IrqFlags, IrqMode, IRQ_FLAGS_ALL,
    IRQ_MASK_BIT, IRQ_MODE_MASK, IRQ_VECTOR_MASK,
};
use vstd::prelude::*;

verus! {

/// Selector of the identification register.
pub const ID: u32 = 0x00;

/// Selector of the version register.
pub const VERSION: u32 = 0x01;

/// Selector of the arbitration register.
pub const ARBITRATION: u32 = 0x02;

/// Selector of the first half of the redirection table.
pub const TABLE_BASE: u32 = 0x10;

/// Access to the registers of one I/O APIC by selector: on hardware, the
/// selector goes to the index register and the value through the data
/// window.
pub trait IoApicBus {
    /// Reads the 32-bit register at selector `reg`.
    fn read(&mut self, reg: u32) -> u32;

    /// Writes `value` to the 32-bit register at selector `reg`.
    fn write(&mut self, reg: u32, value: u32);
}

/// The 4-bit field at bits 24..28, as held by the ID and arbitration
/// registers.
pub open spec fn id_field(v: u32) -> u8 {
    ((v >> 24u32) & 0xf) as u8
}

/// The value written to the ID or arbitration register for `id`.
pub open spec fn id_value(id: u8) -> u32 {
    ((id & 0xf) as u32) << 24u32
}

/// The version number held in the version register `v`.
pub open spec fn version_field(v: u32) -> u8 {
    (v & 0xff) as u8
}

/// The highest redirection-table index held in the version register `v`.
pub open spec fn max_entry_field(v: u32) -> u8 {
    ((v >> 16u32) & 0xff) as u8
}

/// The high half `v` of an entry with its destination field set to `dest`.
pub open spec fn with_destination(v: u32, dest: u32) -> u32 {
    (v & 0x00ff_ffff) | ((dest & 0xff) << 24u32)
}

/// The vector with which `initialize` programs line `i` for `offset`.
pub open spec fn init_vector(i: int, offset: u8) -> u32 {
    ((i + offset) % 256) as u32
}

/// `ops` are the transactions of `initialize(offset)`: a read of the version
/// register, then for each line up to the highest index a write of its low
/// half (vector only: fixed delivery, edge, high-active, physical, unmasked)
/// and a write of zero to its high half.
pub open spec fn init_ops(ops: Seq<BusOp<u32>>, offset: u8) -> bool {
    let n = max_entry_field(ops[0].value) + 1;
    &&& ops.len() == 1 + 2 * n
    &&& ops[0] == read_op(VERSION, ops[0].value)
    &&& forall|i: int|
        0 <= i < n ==> #[trigger] ops[1 + 2 * i] == write_op(lo_spec(i as u8), init_vector(i, offset))
            && ops[2 + 2 * i] == write_op(hi_spec(i as u8), 0u32)
}

/// `ops` are the transactions of `enable_irq(irq, dest, mode, flags)`: the
/// destination goes into the high half; in the low half the delivery mode
/// and flags are cleared, then the requested ones set, and last the mask bit
/// cleared. Each step reads the register and writes it back changed.
pub open spec fn enable_irq_ops(
    ops: Seq<BusOp<u32>>,
    irq: u8,
    dest: u32,
    mode: IrqMode,
    flags: IrqFlags,
) -> bool {
    &&& ops.len() == 8
    &&& ops[0] == read_op(hi_spec(irq), ops[0].value)
    &&& ops[1] == write_op(hi_spec(irq), with_destination(ops[0].value, dest))
    &&& ops[2] == read_op(lo_spec(irq), ops[2].value)
    &&& ops[3] == write_op(lo_spec(irq), ops[2].value & !(IRQ_MODE_MASK | IRQ_FLAGS_ALL))
    &&& ops[4] == read_op(lo_spec(irq), ops[4].value)
    &&& ops[5] == write_op(lo_spec(irq), ops[4].value | irq_mode_bits(mode) | irq_flags_bits(flags))
    &&& ops[6] == read_op(lo_spec(irq), ops[6].value)
    &&& ops[7] == write_op(lo_spec(irq), ops[6].value & !IRQ_MASK_BIT)
}

/// `ops` are the transactions of `disable_irq(irq)`: the low half is read and
/// written back with the mask bit set.
pub open spec fn disable_irq_ops(ops: Seq<BusOp<u32>>, irq: u8) -> bool {
    &&& ops.len() == 2
    &&& ops[0] == read_op(lo_spec(irq), ops[0].value)
    &&& ops[1] == write_op(lo_spec(irq), ops[0].value | IRQ_MASK_BIT)
}

/// An I/O APIC reached through `B`.
///
/// Each operation records the register transactions it made; `ops` is that
/// record, in order.
pub struct IoApic<B: IoApicBus> {
    bus: B,
    log: Ghost<Seq<BusOp<u32>>>,
}

impl<B: IoApicBus> IoApic<B> {
    /// The register transactions made so far, in order.
    pub closed spec fn ops(&self) -> Seq<BusOp<u32>> {
        self.log@
    }

    /// An I/O APIC whose registers are reached through `bus`.
    pub fn new(bus: B) -> (r: Self)
        ensures
            r.ops() == Seq::<BusOp<u32>>::empty(),
    {
        IoApic { bus, log: Ghost(Seq::empty()) }
    }

    /// The register transport.
    pub fn bus(&self) -> &B {
        &self.bus
    }

    fn read_reg(&mut self, reg: u32) -> (r: u32)
        ensures
            final(self).ops() == old(self).ops().push(read_op(reg, r)),
    {
        let r = self.bus.read(reg);
        self.log = Ghost(self.log@.push(read_op(reg, r)));
        r
    }

    fn write_reg(&mut self, reg: u32, value: u32)
        ensures
            final(self).ops() == old(self).ops().push(write_op(reg, value)),
    {
        self.bus.write(reg, value);
        self.log = Ghost(self.log@.push(write_op(reg, value)));
    }

    /// Programs every redirection entry `i`, from 0 to the highest index,
    /// with vector `i + offset` (modulo 256), fixed delivery, edge trigger,
    /// high polarity, physical destination 0, unmasked.
    pub fn init(&mut self, offset: u8)
        ensures
            extends(final(self).ops(), old(self).ops()),
            init_ops(appended(final(self).ops(), old(self).ops()), offset),
    {
        let ghost start = self.ops();
        let end: u32 = self.max_table_entry() as u32 + 1;
        let ghost v = self.ops().last().value;
        let mut i: u32 = 0;
        while i < end
            invariant
                end == max_entry_field(v) + 1,
                i <= end,
                self.ops().len() == start.len() + 1 + 2 * i,
                self.ops().subrange(0, start.len() as int) == start,
                self.ops()[start.len() as int] == read_op(VERSION, v),
                forall|j: int|
                    0 <= j < i ==> #[trigger] self.ops()[start.len() + 1 + 2 * j] == write_op(
                        lo_spec(j as u8),
                        init_vector(j, offset),
                    ) && self.ops()[start.len() + 2 + 2 * j] == write_op(hi_spec(j as u8), 0u32),
            decreases end - i,
        {
            let line = i as u8;
            let vector = (line as u32 + offset as u32) % 256;
            let l = lo(line);
            let h = hi(line);
            self.write_reg(l, vector);
            self.write_reg(h, 0);
            i = i + 1;
        }
        let ghost added = appended(self.ops(), start);
        assert(added[0] == read_op(VERSION, v));
        assert forall|j: int| 0 <= j < end implies #[trigger] added[1 + 2 * j] == write_op(
            lo_spec(j as u8),
            init_vector(j, offset),
        ) && added[2 + 2 * j] == write_op(hi_spec(j as u8), 0u32) by {
            assert(self.ops()[start.len() + 1 + 2 * j] == added[1 + 2 * j]);
        }
    }

    /// Returns the I/O APIC ID.
    pub fn id(&mut self) -> (r: u8)
        ensures
            final(self).ops() == old(self).ops().push(read_op(ID, final(self).ops().last().value)),
            r == id_field(final(self).ops().last().value),
    {
        let v = self.read_reg(ID);
        ((v >> 24) & 0xf) as u8
    }

    /// Sets the I/O APIC ID to the low four bits of `id`.
    pub fn set_id(&mut self, id: u8)
        ensures
            final(self).ops() == old(self).ops().push(write_op(ID, id_value(id))),
    {
        self.write_reg(ID, ((id & 0xf) as u32) << 24);
    }

    /// Returns the I/O APIC version.
    pub fn version(&mut self) -> (r: u8)
        ensures
            final(self).ops() == old(self).ops().push(
                read_op(VERSION, final(self).ops().last().value),
            ),
            r == version_field(final(self).ops().last().value),
    {
        let v = self.read_reg(VERSION);
        (v & 0xff) as u8
    }

    /// Returns the index (from zero) of the highest entry in the redirection
    /// table.
    pub fn max_table_entry(&mut self) -> (r: u8)
        ensures
            final(self).ops() == old(self).ops().push(
                read_op(VERSION, final(self).ops().last().value),
            ),
            r == max_entry_field(final(self).ops().last().value),
    {
        let v = self.read_reg(VERSION);
        ((v >> 16) & 0xff) as u8
    }

    /// Returns the I/O APIC arbitration ID.
    pub fn arbitration_id(&mut self) -> (r: u8)
        ensures
            final(self).ops() == old(self).ops().push(
                read_op(ARBITRATION, final(self).ops().last().value),
            ),
            r == id_field(final(self).ops().last().value),
    {
        let v = self.read_reg(ARBITRATION);
        ((v >> 24) & 0xf) as u8
    }

    /// Sets the I/O APIC arbitration ID to the low four bits of `id`.
    pub fn set_arbitration_id(&mut self, id: u8)
        ensures
            final(self).ops() == old(self).ops().push(write_op(ARBITRATION, id_value(id))),
    {
        self.write_reg(ARBITRATION, ((id & 0xf) as u32) << 24);
    }

    /// Enables line `irq` with delivery `mode` and `flags`, routed to the
    /// destination `dest` (its low eight bits). The mask bit is cleared
    /// last, after the rest of the entry is in place. System-management,
    /// non-maskable, INIT and external modes need an edge-triggered entry:
    /// the caller picks `flags` accordingly.
    pub fn enable_irq(&mut self, irq: u8, dest: u32, mode: IrqMode, flags: IrqFlags)
        ensures
            extends(final(self).ops(), old(self).ops()),
            enable_irq_ops(appended(final(self).ops(), old(self).ops()), irq, dest, mode, flags),
    {
        let ghost start = self.ops();
        let l = lo(irq);
        let h = hi(irq);

        let high = self.read_reg(h);
        self.write_reg(h, (high & 0x00ff_ffff) | ((dest & 0xff) << 24));

        let low = self.read_reg(l);
        self.write_reg(l, low & !(IRQ_MODE_MASK | IRQ_FLAGS_ALL));
        let low = self.read_reg(l);
        self.write_reg(l, low | mode.as_u32() | flags.bits());

        let low = self.read_reg(l);
        self.write_reg(l, low & !IRQ_MASK_BIT);
        assert(self.ops().subrange(0, start.len() as int) =~= start);
    }

    /// Masks line `irq`, leaving the rest of its entry as it was.
    pub fn disable_irq(&mut self, irq: u8)
        ensures
            extends(final(self).ops(), old(self).ops()),
            disable_irq_ops(appended(final(self).ops(), old(self).ops()), irq),
    {
        let ghost start = self.ops();
        let l = lo(irq);
        let low = self.read_reg(l);
        self.write_reg(l, low | IRQ_MASK_BIT);
        assert(self.ops().subrange(0, start.len() as int) =~= start);
    }
}

/// After `initialize(offset)`, on a register file that behaves as memory,
/// every line `i` up to the highest index has vector `i + offset` (modulo
/// 256), is unmasked, uses fixed delivery with no flag set, and has
/// destination 0.
pub proof fn lemma_init_programs_every_line(
    mem: spec_fn(u32) -> u32,
    ops: Seq<BusOp<u32>>,
    offset: u8,
    i: int,
)
    requires
        init_ops(ops, offset),
        0 <= i <= max_entry_field(ops[0].value),
    ensures
        replay(mem, ops)(lo_spec(i as u8)) == init_vector(i, offset),
        replay(mem, ops)(lo_spec(i as u8)) & IRQ_VECTOR_MASK == ((i + offset) % 256) as u32,
        replay(mem, ops)(lo_spec(i as u8)) & IRQ_MASK_BIT == 0,
        replay(mem, ops)(lo_spec(i as u8)) & (IRQ_MODE_MASK | IRQ_FLAGS_ALL) == 0,
        replay(mem, ops)(hi_spec(i as u8)) == 0,
{
    let n = max_entry_field(ops[0].value) + 1;
    let l = lo_spec(i as u8);
    let h = hi_spec(i as u8);
    assert(ops[1 + 2 * i] == write_op(l, init_vector(i, offset)));
    assert forall|k: int| 1 + 2 * i < k < ops.len() implies !(#[trigger] ops[k].write && ops[k].reg
        == l) by {
        let j = (k - 1) / 2;
        assert(ops[1 + 2 * j] == write_op(lo_spec(j as u8), init_vector(j, offset)));
        lemma_selector_layout(j as u8, i as u8);
    }
    lemma_replay_last_write(mem, ops, 1 + 2 * i);
    assert forall|k: int| 2 + 2 * i < k < ops.len() implies !(#[trigger] ops[k].write && ops[k].reg
        == h) by {
        let j = (k - 1) / 2;
        assert(ops[1 + 2 * j] == write_op(lo_spec(j as u8), init_vector(j, offset)));
        lemma_selector_layout(j as u8, i as u8);
    }
    lemma_replay_last_write(mem, ops, 2 + 2 * i);
    let x = init_vector(i, offset);
    assert(x & 0xffu32 == x && x & 0x1_0000u32 == 0 && x & (0x700u32 | 0xa800u32) == 0) by (
    bit_vector)
        requires
            x < 256,
    ;
}

/// After `enable_irq(irq, dest, mode, flags)`, on a register file that
/// behaves as memory, the entry is unmasked, holds exactly the requested
/// delivery mode, flags and destination, and keeps its vector.
pub proof fn lemma_enable_irq_configures(
    mem: spec_fn(u32) -> u32,
    ops: Seq<BusOp<u32>>,
    irq: u8,
    dest: u32,
    mode: IrqMode,
    flags: IrqFlags,
)
    requires
        enable_irq_ops(ops, irq, dest, mode, flags),
        coherent(mem, ops),
    ensures
        replay(mem, ops)(lo_spec(irq)) & IRQ_MASK_BIT == 0,
        replay(mem, ops)(lo_spec(irq)) & IRQ_MODE_MASK == irq_mode_bits(mode),
        replay(mem, ops)(lo_spec(irq)) & IRQ_FLAGS_ALL == irq_flags_bits(flags),
        replay(mem, ops)(lo_spec(irq)) & IRQ_VECTOR_MASK == mem(lo_spec(irq)) & IRQ_VECTOR_MASK,
        replay(mem, ops)(hi_spec(irq)) >> 24u32 == dest & 0xff,
{
    let l = lo_spec(irq);
    let h = hi_spec(irq);
    lemma_selector_layout(irq, irq);
    lemma_replay_last_write(mem, ops, 7);
    lemma_replay_last_write(mem, ops, 1);
    lemma_coherent_read(mem, ops, 6);
    lemma_replay_last_write(mem, ops.subrange(0, 6), 5);
    lemma_coherent_read(mem, ops, 4);
    lemma_replay_last_write(mem, ops.subrange(0, 4), 3);
    lemma_coherent_read(mem, ops, 2);
    lemma_replay_untouched(mem, ops.subrange(0, 2), l);
    let r = mem(l);
    let hv = ops[0].value;
    let mb = irq_mode_bits(mode);
    let fb = irq_flags_bits(flags);
    assert(mb & !0x700u32 == 0) by (bit_vector)
        requires
            mb == 0 || mb == 0x100 || mb == 0x200 || mb == 0x400 || mb == 0x500 || mb == 0x700,
    ;
    let a: u32 = if flags.level_triggered { 0x8000 } else { 0 };
    let b: u32 = if flags.low_active { 0x2000 } else { 0 };
    let c: u32 = if flags.logical_dest { 0x800 } else { 0 };
    assert((a | b | c) & !0xa800u32 == 0) by (bit_vector)
        requires
            a == 0 || a == 0x8000,
            b == 0 || b == 0x2000,
            c == 0 || c == 0x800,
    ;
    assert({
        let v = (((r & !(0x700u32 | 0xa800u32)) | mb | fb) & !0x1_0000u32);
        &&& v & 0x1_0000u32 == 0
        &&& v & 0x700u32 == mb
        &&& v & 0xa800u32 == fb
        &&& v & 0xffu32 == r & 0xffu32
    }) by (bit_vector)
        requires
            mb & !0x700u32 == 0,
            fb & !0xa800u32 == 0,
    ;
    assert((((hv & 0x00ff_ffffu32) | ((dest & 0xffu32) << 24u32)) >> 24u32) == dest & 0xffu32)
        by (bit_vector);
}

/// After `disable_irq(irq)`, on a register file that behaves as memory, the
/// low half of the entry is what it was with the mask bit set, and every
/// other register is unchanged.
pub proof fn lemma_disable_irq_masks(mem: spec_fn(u32) -> u32, ops: Seq<BusOp<u32>>, irq: u8, r: u32)
    requires
        disable_irq_ops(ops, irq),
        coherent(mem, ops),
    ensures
        replay(mem, ops)(lo_spec(irq)) == mem(lo_spec(irq)) | IRQ_MASK_BIT,
        r != lo_spec(irq) ==> replay(mem, ops)(r) == mem(r),
{
    lemma_replay_last_write(mem, ops, 1);
    lemma_coherent_read(mem, ops, 0);
    lemma_replay_untouched(mem, ops.subrange(0, 0), lo_spec(irq));
    if r != lo_spec(irq) {
        lemma_replay_untouched(mem, ops, r);
    }
}

/// Disabling a line after enabling it sets the mask bit and leaves the
/// delivery mode, flags, destination and vector as `enable_irq` left them.
pub proof fn lemma_disable_after_enable(
    mem: spec_fn(u32) -> u32,
    enable: Seq<BusOp<u32>>,
    disable: Seq<BusOp<u32>>,
    irq: u8,
    dest: u32,
    mode: IrqMode,
    flags: IrqFlags,
)
    requires
        enable_irq_ops(enable, irq, dest, mode, flags),
        coherent(mem, enable),
        disable_irq_ops(disable, irq),
        coherent(replay(mem, enable), disable),
    ensures
        ({
            let m = replay(replay(mem, enable), disable);
            &&& m(lo_spec(irq)) & IRQ_MASK_BIT != 0
            &&& m(lo_spec(irq)) & IRQ_MODE_MASK == irq_mode_bits(mode)
            &&& m(lo_spec(irq)) & IRQ_FLAGS_ALL == irq_flags_bits(flags)
            &&& m(lo_spec(irq)) & IRQ_VECTOR_MASK == mem(lo_spec(irq)) & IRQ_VECTOR_MASK
            &&& m(hi_spec(irq)) >> 24u32 == dest & 0xff
        }),
{
    let m1 = replay(mem, enable);
    lemma_enable_irq_configures(mem, enable, irq, dest, mode, flags);
    lemma_selector_layout(irq, irq);
    lemma_disable_irq_masks(m1, disable, irq, hi_spec(irq));
    let v = m1(lo_spec(irq));
    assert({
        let w = v | 0x1_0000u32;
        &&& w & 0x1_0000u32 != 0
        &&& w & 0x700u32 == v & 0x700u32
        &&& w & 0xa800u32 == v & 0xa800u32
        &&& w & 0xffu32 == v & 0xffu32
    }) by (bit_vector);
}

} // verus!
