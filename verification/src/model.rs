//! Mathematical model of target-process memory.
//!
//! A target address space is a partial map from addresses to bytes. The
//! functions here say what a successful write does to that map and what a
//! successful read returns from it; the [`crate::operator::ProcessOperator`]
//! contract is stated over them.

use vstd::prelude::*;

verus! {

/// The memory map after `data` has been written starting at `addr`:
/// the window `[addr, addr + data.len())` holds `data`, everything else is
/// as in `m`.
pub open spec fn mem_after_write(m: Map<int, u8>, addr: int, data: Seq<u8>) -> Map<int, u8> {
    Map::new(
        |i: int| m.dom().contains(i) || (addr <= i < addr + data.len()),
        |i: int|
            if addr <= i < addr + data.len() {
                data[i - addr]
            } else {
                m[i]
            },
    )
}

/// The `len` bytes of `m` starting at `addr`.
pub open spec fn read_bytes(m: Map<int, u8>, addr: int, len: nat) -> Seq<u8> {
    Seq::new(len, |i: int| m[addr + i])
}

/// A contiguous region: `bytes` laid out starting at `base`, nothing else
/// mapped.
pub open spec fn region_map(base: int, bytes: Seq<u8>) -> Map<int, u8> {
    Map::new(|i: int| base <= i < base + bytes.len(), |i: int| bytes[i - base])
}

/// Round-trip law: reading back the window a write filled returns exactly
/// the bytes that were written, whatever memory held before.
pub proof fn lemma_write_read_round_trip(m: Map<int, u8>, addr: int, data: Seq<u8>)
    ensures
        read_bytes(mem_after_write(m, addr, data), addr, data.len()) == data,
{
    assert(read_bytes(mem_after_write(m, addr, data), addr, data.len()) =~= data);
}

/// A write of zero bytes leaves target memory unchanged.
pub proof fn lemma_zero_length_write_preserves_memory(m: Map<int, u8>, addr: int)
    ensures
        mem_after_write(m, addr, Seq::<u8>::empty()) == m,
{
    assert(mem_after_write(m, addr, Seq::<u8>::empty()) =~= m);
}

} // verus!
