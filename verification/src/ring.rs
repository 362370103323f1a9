//! Index arithmetic shared by the two rings: positions are free-running `u32`
//! counters that wrap at 2^32, and a position's physical slot is its value
//! modulo the ring's capacity, which is a power of two.

use vstd::arithmetic::div_mod::*;
use vstd::arithmetic::power2::*;
use vstd::prelude::*;

verus! {

/// The physical slot of ring position `pos` in a ring of `entries` slots.
pub open spec fn slot_index(pos: u32, entries: u32) -> int {
    pos as int % entries as int
}

/// The number of positions from `from` forward to `to`, counted modulo 2^32.
pub open spec fn distance(from: u32, to: u32) -> int {
    to.wrapping_sub(from) as int
}

/// Where a run of positions that ends before `to` starts, if it is to start at `from`
/// but hold no more than the last `entries` positions.
pub open spec fn window_start(from: u32, to: u32, entries: u32) -> u32 {
    if distance(from, to) > entries {
        to.wrapping_sub(entries)
    } else {
        from
    }
}

/// The slots of the positions from `from` up to, not including, `to`, in their order;
/// where these are more than `entries`, the slots of the last `entries` of them.
pub open spec fn window_slots(from: u32, to: u32, entries: u32) -> Seq<u32> {
    let start = window_start(from, to, entries);
    Seq::new(
        distance(start, to) as nat,
        |i: int| slot_index(start.wrapping_add(i as u32), entries) as u32,
    )
}

/// The powers of two that a `u32` can hold, written out.
spec fn small_pow2(n: int) -> bool {
    n == 0x1 || n == 0x2 || n == 0x4 || n == 0x8 || n == 0x10 || n == 0x20 || n == 0x40 || n
        == 0x80 || n == 0x100 || n == 0x200 || n == 0x400 || n == 0x800 || n == 0x1000 || n
        == 0x2000 || n == 0x4000 || n == 0x8000 || n == 0x1_0000 || n == 0x2_0000 || n
        == 0x4_0000 || n == 0x8_0000 || n == 0x10_0000 || n == 0x20_0000 || n == 0x40_0000 || n
        == 0x80_0000 || n == 0x100_0000 || n == 0x200_0000 || n == 0x400_0000 || n
        == 0x800_0000 || n == 0x1000_0000 || n == 0x2000_0000 || n == 0x4000_0000 || n
        == 0x8000_0000
}

proof fn lemma_single_bit(n: u32)
    by (bit_vector)
    ensures
        (n != 0 && n & ((n - 1) as u32) == 0) <==> (n == 0x1 || n == 0x2 || n == 0x4 || n == 0x8
            || n == 0x10 || n == 0x20 || n == 0x40 || n == 0x80 || n == 0x100 || n == 0x200 || n
            == 0x400 || n == 0x800 || n == 0x1000 || n == 0x2000 || n == 0x4000 || n == 0x8000
            || n == 0x1_0000 || n == 0x2_0000 || n == 0x4_0000 || n == 0x8_0000 || n
            == 0x10_0000 || n == 0x20_0000 || n == 0x40_0000 || n == 0x80_0000 || n
            == 0x100_0000 || n == 0x200_0000 || n == 0x400_0000 || n == 0x800_0000 || n
            == 0x1000_0000 || n == 0x2000_0000 || n == 0x4000_0000 || n == 0x8000_0000),
{
}

proof fn lemma_small_pow2_is_pow2(n: int)
    requires
        small_pow2(n),
    ensures
        is_pow2(n),
    decreases n,
{
    reveal(is_pow2);
    if n != 1 {
        lemma_small_pow2_is_pow2(n / 2);
    }
}

proof fn lemma_pow2_is_small_pow2(n: int)
    requires
        is_pow2(n),
        n <= u32::MAX,
    ensures
        small_pow2(n),
    decreases n,
{
    reveal(is_pow2);
    if n != 1 {
        lemma_pow2_is_small_pow2(n / 2);
    }
}

proof fn lemma_masks(pos: u32)
    by (bit_vector)
    ensures
        pos & 0x0 == pos % 0x1,
        pos & 0x1 == pos % 0x2,
        pos & 0x3 == pos % 0x4,
        pos & 0x7 == pos % 0x8,
        pos & 0xf == pos % 0x10,
        pos & 0x1f == pos % 0x20,
        pos & 0x3f == pos % 0x40,
        pos & 0x7f == pos % 0x80,
        pos & 0xff == pos % 0x100,
        pos & 0x1ff == pos % 0x200,
        pos & 0x3ff == pos % 0x400,
        pos & 0x7ff == pos % 0x800,
        pos & 0xfff == pos % 0x1000,
        pos & 0x1fff == pos % 0x2000,
        pos & 0x3fff == pos % 0x4000,
        pos & 0x7fff == pos % 0x8000,
        pos & 0xffff == pos % 0x1_0000,
        pos & 0x1_ffff == pos % 0x2_0000,
        pos & 0x3_ffff == pos % 0x4_0000,
        pos & 0x7_ffff == pos % 0x8_0000,
        pos & 0xf_ffff == pos % 0x10_0000,
        pos & 0x1f_ffff == pos % 0x20_0000,
        pos & 0x3f_ffff == pos % 0x40_0000,
        pos & 0x7f_ffff == pos % 0x80_0000,
        pos & 0xff_ffff == pos % 0x100_0000,
        pos & 0x1ff_ffff == pos % 0x200_0000,
        pos & 0x3ff_ffff == pos % 0x400_0000,
        pos & 0x7ff_ffff == pos % 0x800_0000,
        pos & 0xfff_ffff == pos % 0x1000_0000,
        pos & 0x1fff_ffff == pos % 0x2000_0000,
        pos & 0x3fff_ffff == pos % 0x4000_0000,
        pos & 0x7fff_ffff == pos % 0x8000_0000,
{
}

proof fn lemma_divides_wrap_bits(n: u64)
    by (bit_vector)
    requires
        n != 0,
        n < 0x1_0000_0000,
        n & ((n - 1) as u64) == 0,
    ensures
        0x1_0000_0000u64 % n == 0,
{
}

proof fn lemma_single_bit_wide(n: u32)
    by (bit_vector)
    requires
        n & ((n - 1) as u32) == 0,
    ensures
        (n as u64) & (((n as u64) - 1) as u64) == 0,
{
}

/// A power of two that fits in a `u32` divides 2^32.
proof fn lemma_divides_wrap(n: u32)
    requires
        small_pow2(n as int),
    ensures
        0x1_0000_0000int % (n as int) == 0,
{
    lemma_single_bit(n);
    lemma_single_bit_wide(n);
    lemma_divides_wrap_bits(n as u64);
}

/// Whether `n` is a power of two.
pub fn is_power_of_two(n: u32) -> (r: bool)
    ensures
        r == is_pow2(n as int),
        r ==> n >= 1,
{
    proof {
        lemma_single_bit(n);
        if small_pow2(n as int) {
            lemma_small_pow2_is_pow2(n as int);
        }
        if is_pow2(n as int) {
            lemma_pow2_is_small_pow2(n as int);
        }
    }
    n != 0 && n & (n - 1) == 0
}

/// Masking a position with `entries - 1` gives its slot, which lies inside the ring.
pub proof fn lemma_mask_is_slot(pos: u32, entries: u32)
    requires
        is_pow2(entries as int),
    ensures
        pos & ((entries - 1) as u32) == slot_index(pos, entries),
        0 <= slot_index(pos, entries) < entries,
{
    lemma_pow2_is_small_pow2(entries as int);
    lemma_masks(pos);
}

/// Moving a position forward by `step` moves its slot forward by `step`, modulo the capacity:
/// the wrap of the counter at 2^32 does not disturb the slots.
pub proof fn lemma_slot_of_advanced(pos: u32, step: u32, entries: u32)
    requires
        is_pow2(entries as int),
    ensures
        slot_index(pos.wrapping_add(step), entries) == (pos as int + step as int) % (
        entries as int),
{
    let n = entries as int;
    lemma_pow2_is_small_pow2(n);
    lemma_divides_wrap(entries);
    let sum = pos as int + step as int;
    if sum > u32::MAX {
        let q = 0x1_0000_0000int / n;
        lemma_fundamental_div_mod(0x1_0000_0000int, n);
        assert(sum == n * q + (sum - 0x1_0000_0000int));
        lemma_mod_multiples_vanish(q, sum - 0x1_0000_0000int, n);
    }
}

/// Fewer than `entries` consecutive positions never share a slot: of two positions in
/// such a run, `i` and `j` steps after `start`, the slots differ.
pub proof fn lemma_slots_distinct(start: u32, i: u32, j: u32, entries: u32)
    requires
        is_pow2(entries as int),
        i < j < entries,
    ensures
        slot_index(start.wrapping_add(i), entries) != slot_index(
            start.wrapping_add(j),
            entries,
        ),
{
    let n = entries as int;
    lemma_slot_of_advanced(start, i, entries);
    lemma_slot_of_advanced(start, j, entries);
    let a = start as int + i as int;
    let b = start as int + j as int;
    lemma_mod_equivalence(b, a, n);
    lemma_small_mod((b - a) as nat, n as nat);
}

/// Lists the slots of the positions from `from` up to `to`, no more than one round of
/// the ring.
pub(crate) fn slots_between(from: u32, to: u32, entries: u32) -> (slots: Vec<u32>)
    requires
        is_pow2(entries as int),
    ensures
        slots@ == window_slots(from, to, entries),
        slots@.len() <= entries,
        forall|i: int| 0 <= i < slots@.len() ==> slots@[i] < entries,
{
    proof {
        lemma_pow2_is_small_pow2(entries as int);
    }
    let start = if to.wrapping_sub(from) > entries {
        to.wrapping_sub(entries)
    } else {
        from
    };
    let count = to.wrapping_sub(start);
    let mask = entries - 1;
    let mut slots: Vec<u32> = Vec::new();
    let mut i: u32 = 0;
    while i < count
        invariant
            is_pow2(entries as int),
            mask == entries - 1,
            i <= count <= entries,
            slots@ =~= Seq::new(
                i as nat,
                |k: int| slot_index(start.wrapping_add(k as u32), entries) as u32,
            ),
            forall|k: int| 0 <= k < slots@.len() ==> slots@[k] < entries,
        decreases count - i,
    {
        let pos = start.wrapping_add(i);
        proof {
            lemma_mask_is_slot(pos, entries);
        }
        slots.push(pos & mask);
        i += 1;
    }
    slots
}

} // verus!
