//! Hardware access programs.
//!
//! The driver logic never touches memory-mapped registers itself. Every
//! operation that needs the hardware describes what to do as a sequence
//! of [`HwOp`]s; the code that owns the peripheral performs them in
//! order. The contracts of the driver state exactly which sequence each
//! operation produces.

use vstd::prelude::*;

verus! {

/// One step of a hardware access program.
#[derive(Debug, Clone, Copy, PartialEq, Eq, Structural)]
pub enum HwOp {
    /// Write `value` to the 32-bit register at address `addr`.
    Write { addr: usize, value: u32 },
    /// Read-modify-write of the 32-bit register at `addr`: the new value
    /// is `(old & !clear) | set`.
    Modify { addr: usize, clear: u32, set: u32 },
    /// Poll the register at `addr` until `(value & mask) == 0`, reading it
    /// at most `max_polls` times. Best effort: the program continues
    /// whether or not the bits cleared.
    PollClear { addr: usize, mask: u32, max_polls: u32 },
    /// Poll the register at `addr` until `(value & mask) == 0`, reading it
    /// at most `max_polls` times. If the bits are still set after that,
    /// the program stops and the operation fails with a timeout.
    RequireClear { addr: usize, mask: u32, max_polls: u32 },
    /// Read the register at `addr`; its low 16 bits are the program's
    /// result.
    ReadLow16 { addr: usize },
    /// Masked write of APLL register `reg` over the ROM I2C bus: bits
    /// `msb..=lsb` become `value`, the others keep their value (see
    /// [`crate::clock::apll_masked_value`]).
    ApllWriteMask { reg: u8, msb: u8, lsb: u8, value: u8 },
    /// Plain write of `value` to APLL register `reg` over the ROM I2C bus.
    ApllWrite { reg: u8, value: u8 },
    /// Busy-wait for `iterations` spin-loop hints.
    Spin { iterations: u32 },
}

/// Whether `op` writes register `addr`.
pub open spec fn writes(op: HwOp, addr: usize) -> bool {
    match op {
        HwOp::Write { addr: a, .. } => a == addr,
        HwOp::Modify { addr: a, .. } => a == addr,
        _ => false,
    }
}

/// The value register `addr` holds after `op` when it held `v` before,
/// as far as the program's own writes decide it: a `Write` stores its
/// value, a `Modify` stores `(v & !clear) | set`, every other step
/// leaves the register alone. Changes the hardware makes by itself
/// (self-clearing bits, status flags) are not part of this model.
pub open spec fn op_effect(op: HwOp, addr: usize, v: u32) -> u32 {
    match op {
        HwOp::Write { addr: a, value } => if a == addr {
            value
        } else {
            v
        },
        HwOp::Modify { addr: a, clear, set } => if a == addr {
            (v & !clear) | set
        } else {
            v
        },
        _ => v,
    }
}

/// The value register `addr` holds after the program `ops` ran on a
/// register holding `v`: each step's [`op_effect`] in order.
pub open spec fn reg_after(ops: Seq<HwOp>, addr: usize, v: u32) -> u32
    decreases ops.len(),
{
    if ops.len() == 0 {
        v
    } else {
        op_effect(ops.last(), addr, reg_after(ops.drop_last(), addr, v))
    }
}

/// Running two programs in turn is running their concatenation.
pub proof fn lemma_reg_after_concat(a: Seq<HwOp>, b: Seq<HwOp>, addr: usize, v: u32)
    ensures
        reg_after(a + b, addr, v) == reg_after(b, addr, reg_after(a, addr, v)),
    decreases b.len(),
{
    if b.len() == 0 {
        assert(a + b =~= a);
    } else {
        assert((a + b).drop_last() =~= a + b.drop_last());
        lemma_reg_after_concat(a, b.drop_last(), addr, v);
    }
}

/// A program none of whose steps writes `addr` leaves it as it was.
pub proof fn lemma_reg_after_untouched(ops: Seq<HwOp>, addr: usize, v: u32)
    requires
        forall|i: int| 0 <= i < ops.len() ==> !writes(#[trigger] ops[i], addr),
    ensures
        reg_after(ops, addr, v) == v,
    decreases ops.len(),
{
    if ops.len() > 0 {
        lemma_reg_after_untouched(ops.drop_last(), addr, v);
    }
}

/// Every register `ops` writes lies below address `bound`.
pub open spec fn writes_below(ops: Seq<HwOp>, bound: usize) -> bool {
    forall|i: int, a: usize| 0 <= i < ops.len() && #[trigger] writes(ops[i], a) ==> a < bound
}

/// A register at or above `bound` keeps its value through a program
/// that writes only below `bound`.
pub proof fn lemma_reg_after_below(ops: Seq<HwOp>, bound: usize, addr: usize, v: u32)
    requires
        writes_below(ops, bound),
        bound <= addr,
    ensures
        reg_after(ops, addr, v) == v,
{
    lemma_reg_after_untouched(ops, addr, v);
}

/// Two programs that write only below `bound` make one.
pub proof fn lemma_writes_below_concat(a: Seq<HwOp>, b: Seq<HwOp>, bound: usize)
    requires
        writes_below(a, bound),
        writes_below(b, bound),
    ensures
        writes_below(a + b, bound),
{
    assert forall|i: int, x: usize| 0 <= i < (a + b).len() && #[trigger] writes((a + b)[i], x)
        implies x < bound by {
        if i < a.len() {
            assert((a + b)[i] == a[i]);
        } else {
            assert((a + b)[i] == b[i - a.len()]);
        }
    }
}

/// Appending a step applies its effect last.
pub proof fn lemma_reg_after_push(s: Seq<HwOp>, op: HwOp, addr: usize, v: u32)
    ensures
        reg_after(s.push(op), addr, v) == op_effect(op, addr, reg_after(s, addr, v)),
{
    assert(s.push(op).drop_last() =~= s);
}

/// A program of `n` steps applies their effects in order: the value
/// after the first `k + 1` steps is step `k`'s effect on the value after
/// the first `k`.
pub proof fn lemma_reg_after_take(s: Seq<HwOp>, k: int, addr: usize, v: u32)
    requires
        0 <= k < s.len(),
    ensures
        reg_after(s.take(k + 1), addr, v) == op_effect(s[k], addr, reg_after(s.take(k), addr, v)),
{
    assert(s.take(k + 1) =~= s.take(k).push(s[k]));
    lemma_reg_after_push(s.take(k), s[k], addr, v);
}

} // verus!
