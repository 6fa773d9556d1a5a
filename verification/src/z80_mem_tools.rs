// misc Machine tools
use vstd::prelude::*;

use crate::machine::{Machine, byte_after, lemma_memory_written_compose, lemma_no_writes, lemma_poke_written, memory_written};

verus! {

/// The writes of `count` bytes `fill` from `address` up.
pub open spec fn fill_writes(address: u32, fill: u8, count: nat) -> Seq<(u32, u8)> {
    Seq::new(count, |i: int| ((address + i) as u32, fill))
}

/// The writes of the bytes of `data` from `start` up.
pub open spec fn copy_writes(start: u32, data: Seq<u8>) -> Seq<(u32, u8)> {
    Seq::new(data.len(), |i: int| ((start + i) as u32, data[i]))
}

/// The byte at `a` after writing `fill` to `count` bytes from `address`.
pub open spec fn filled_byte<M: Machine>(m0: M, address: u32, fill: u8, count: nat, a: u32) -> u8 {
    if address <= a < address + count && m0.stores(a) {
        fill
    } else {
        m0.peek_spec(a)
    }
}

proof fn lemma_fill_byte_after<M: Machine>(m0: M, address: u32, fill: u8, count: nat, a: u32)
    requires
        address + count <= u32::MAX + 1,
    ensures
        byte_after(m0, fill_writes(address, fill, count), a) == filled_byte(m0, address, fill, count, a),
    decreases count,
{
    let w = fill_writes(address, fill, count);
    if count > 0 {
        assert(w.drop_last() =~= fill_writes(address, fill, (count - 1) as nat));
        lemma_fill_byte_after(m0, address, fill, (count - 1) as nat, a);
    }
}

/// After `memset`, the bytes of the range read `fill` where the machine
/// stores them, and the other bytes are unchanged.
pub proof fn lemma_memset_reads<M: Machine>(m0: M, m1: M, address: u32, fill: u8, count: u32, a: u32)
    requires
        address + count <= u32::MAX,
        memory_written(m0, m1, fill_writes(address, fill, count as nat)),
    ensures
        address <= a < address + count && m0.stores(a) ==> m1.peek_spec(a) == fill,
        !(address <= a < address + count) ==> m1.peek_spec(a) == m0.peek_spec(a),
{
    lemma_fill_byte_after(m0, address, fill, count as nat, a);
}

/// The byte at `a` after copying `data` from `start`.
pub open spec fn copied_byte<M: Machine>(m0: M, start: u32, data: Seq<u8>, a: u32) -> u8 {
    if start <= a < start + data.len() && m0.stores(a) {
        data[a - start]
    } else {
        m0.peek_spec(a)
    }
}

proof fn lemma_copy_byte_after<M: Machine>(m0: M, start: u32, data: Seq<u8>, a: u32)
    requires
        start + data.len() <= u32::MAX + 1,
    ensures
        byte_after(m0, copy_writes(start, data), a) == copied_byte(m0, start, data, a),
    decreases data.len(),
{
    let w = copy_writes(start, data);
    if data.len() > 0 {
        assert(w.drop_last() =~= copy_writes(start, data.drop_last()));
        lemma_copy_byte_after(m0, start, data.drop_last(), a);
    }
}

/// After `memcpy_to_z80`, the memory from `start` reads the data back where
/// the machine stores it, and the other bytes are unchanged.
pub proof fn lemma_memcpy_reads<M: Machine>(m0: M, m1: M, start: u32, data: Seq<u8>, a: u32)
    requires
        start + data.len() <= u32::MAX,
        memory_written(m0, m1, copy_writes(start, data)),
    ensures
        start <= a < start + data.len() && m0.stores(a) ==> m1.peek_spec(a) == data[a - start],
        !(start <= a < start + data.len()) ==> m1.peek_spec(a) == m0.peek_spec(a),
{
    lemma_copy_byte_after(m0, start, data, a);
}

/// Fills `count` bytes from `address` with `fill`.
pub fn memset<M: Machine>(machine: &mut M, address: u32, fill: u8, count: u32)
    requires
        address + count <= u32::MAX,
    ensures
        memory_written(*old(machine), *final(machine), fill_writes(address, fill, count as nat)),
{
    let ghost m0 = *machine;
    let end = address + count;
    let mut loc = address;
    proof {
        assert(fill_writes(address, fill, 0) =~= Seq::<(u32, u8)>::empty());
        lemma_no_writes(m0);
    }
    while loc < end
        invariant
            address <= loc <= end,
            end == address + count,
            memory_written(m0, *machine, fill_writes(address, fill, (loc - address) as nat)),
        decreases end - loc,
    {
        let ghost m1 = *machine;
        machine.poke(loc, fill);
        proof {
            lemma_poke_written(m1, *machine, loc, fill);
            lemma_memory_written_compose(m0, m1, *machine, fill_writes(address, fill, (loc - address) as nat), seq![(loc, fill)]);
            assert(fill_writes(address, fill, (loc - address) as nat) + seq![(loc, fill)] =~= fill_writes(
                address,
                fill,
                (loc + 1 - address) as nat,
            ));
        }
        loc = loc + 1;
    }
}

/// Copies `data` to the memory from `start` up.
pub fn memcpy_to_z80<M: Machine>(machine: &mut M, start: u32, data: &[u8])
    requires
        start + data@.len() <= u32::MAX,
    ensures
        memory_written(*old(machine), *final(machine), copy_writes(start, data@)),
{
    let ghost m0 = *machine;
    let mut loc = start;
    let mut i: usize = 0;
    proof {
        assert(copy_writes(start, data@.subrange(0, 0)) =~= Seq::<(u32, u8)>::empty());
        lemma_no_writes(m0);
    }
    while i < data.len()
        invariant
            i <= data@.len(),
            loc == start + i,
            start + data@.len() <= u32::MAX,
            memory_written(m0, *machine, copy_writes(start, data@.subrange(0, i as int))),
        decreases data@.len() - i,
    {
        let ghost m1 = *machine;
        machine.poke(loc, data[i]);
        proof {
            lemma_poke_written(m1, *machine, loc, data@[i as int]);
            lemma_memory_written_compose(
                m0,
                m1,
                *machine,
                copy_writes(start, data@.subrange(0, i as int)),
                seq![(loc, data@[i as int])],
            );
            assert(copy_writes(start, data@.subrange(0, i as int)) + seq![(loc, data@[i as int])]
                =~= copy_writes(start, data@.subrange(0, i + 1)));
        }
        loc = loc + 1;
        i = i + 1;
    }
    proof {
        assert(data@.subrange(0, data@.len() as int) =~= data@);
    }
}

/// Some byte at `address` or above is zero.
pub open spec fn has_terminator<M: Machine>(machine: M, address: u32) -> bool {
    exists|z: u32| address <= z && #[trigger] machine.peek_spec(z) == 0
}

/// `s` is the zero terminated string at `address`: its bytes, up to the
/// first zero byte.
pub open spec fn is_cstring_at<M: Machine>(machine: M, address: u32, s: Seq<u8>) -> bool {
    &&& address + s.len() <= u32::MAX
    &&& machine.peek_spec((address + s.len()) as u32) == 0
    &&& forall|j: int| 0 <= j < s.len() ==> s[j] == machine.peek_spec((address + j) as u32) && s[j] != 0
}

/// Returns the zero terminated string at `address`, without its zero.
pub fn get_cstring<M: Machine>(machine: &M, address: u32) -> (s: Vec<u8>)
    requires
        has_terminator(*machine, address),
    ensures
        is_cstring_at(*machine, address, s@),
{
    let ghost z = choose|z: u32| address <= z && machine.peek_spec(z) == 0;
    let mut s: Vec<u8> = vec![];
    let mut ptr = address;
    loop
        invariant
            address <= ptr <= z,
            machine.peek_spec(z) == 0,
            ptr == address + s@.len(),
            forall|j: int| 0 <= j < s@.len() ==> s@[j] == machine.peek_spec((address + j) as u32) && s@[j] != 0,
        ensures
            is_cstring_at(*machine, address, s@),
        decreases z - ptr,
    {
        let b = machine.peek(ptr);
        if b == 0 {
            break;
        }
        s.push(b);
        ptr = ptr + 1;
    }
    s
}

/// The XOR of the 24 bit words at `i`, `i + 3`, ... below `end`.
pub open spec fn checksum_spec<M: Machine>(machine: M, i: int, end: int) -> u32
    decreases (if i < end { end - i } else { 0 }),
{
    if i >= end {
        0
    } else {
        let a = i as u32;
        let word = (machine.peek_spec(a) + 256 * machine.peek_spec(a.wrapping_add(1)) + 65536 * machine.peek_spec(
            a.wrapping_add(2),
        )) as u32;
        word ^ checksum_spec(machine, i + 3, end)
    }
}

proof fn lemma_xor_assoc(a: u32, b: u32, c: u32)
    ensures
        (a ^ b) ^ c == a ^ (b ^ c),
{
    assert((a ^ b) ^ c == a ^ (b ^ c)) by (bit_vector);
}

/// XOR of the 24 bit words of `len` bytes from `start`, taken every 3 bytes.
pub fn checksum<M: Machine>(machine: &M, start: u32, len: u32) -> (sum: u32)
    requires
        start + len <= u32::MAX,
    ensures
        sum == checksum_spec(*machine, start as int, start + len),
{
    let end = (start + len) as u64;
    let mut checksum = 0u32;
    let mut i = start as u64;
    proof {
        let total = checksum_spec(*machine, start as int, end as int);
        assert(0u32 ^ total == total) by (bit_vector);
    }
    while i < end
        invariant
            end == start + len,
            end <= u32::MAX,
            i >= start,
            checksum ^ checksum_spec(*machine, i as int, end as int) == checksum_spec(*machine, start as int, end as int),
        decreases end + 3 - i,
    {
        let word = machine._peek24(i as u32);
        proof {
            lemma_xor_assoc(checksum, word, checksum_spec(*machine, i + 3, end as int));
        }
        checksum ^= word;
        i = i + 3;
    }
    proof {
        assert(checksum ^ 0u32 == checksum) by (bit_vector);
    }
    checksum
}

} // verus!
