//! The guest ABI layout of a string object, stated over plain byte sequences.
//!
//! A string object is addressed by the offset of its payload. The four bytes
//! right before the payload hold its byte length as a little-endian `u32`;
//! the payload is that many bytes of UTF-16 code units, each stored
//! little-endian, as WebAssembly linear memory always is.
use vstd::prelude::*;

verus! {

/// Size in bytes of the length header that precedes a string payload.
pub const HEADER_SIZE: u32 = 4;

/// Out-of-bounds access to guest linear memory.
#[derive(Debug, Clone, Copy, PartialEq, Eq, Structural)]
pub enum MemoryAccessError {
    OutOfBounds,
}

/// The unsigned integer that four bytes encode, little-endian.
pub open spec fn le_u32(b: Seq<u8>) -> nat
    recommends
        b.len() == 4,
{
    b[0] as nat + 256 * (b[1] as nat) + 65536 * (b[2] as nat) + 16777216 * (b[3] as nat)
}

/// Code units read from bytes in little-endian pairs (an odd last byte is ignored).
pub open spec fn units_of_le(b: Seq<u8>) -> Seq<u16> {
    Seq::new(b.len() / 2, |i: int| (b[2 * i] as int + 256 * (b[2 * i + 1] as int)) as u16)
}

/// Code units stored as bytes, low byte first.
pub open spec fn le_of_units(u: Seq<u16>) -> Seq<u8> {
    Seq::new(
        2 * u.len(),
        |i: int|
            if i % 2 == 0 {
                (u[i / 2] as int % 256) as u8
            } else {
                (u[i / 2] as int / 256) as u8
            },
    )
}

/// Offset of the header of the object whose payload starts at `ptr`.
pub open spec fn header_at(ptr: nat) -> int {
    ptr - HEADER_SIZE
}

/// The byte length stored in the header before `ptr`.
pub open spec fn stored_len(mem: Seq<u8>, ptr: nat) -> nat {
    le_u32(mem.subrange(header_at(ptr), ptr as int))
}

/// Byte count of the payload that is read: the stored length rounded down
/// to whole code units.
pub open spec fn payload_len(mem: Seq<u8>, ptr: nat) -> nat {
    2 * (stored_len(mem, ptr) / 2)
}

/// The header lies inside memory.
pub open spec fn header_in_bounds(mem: Seq<u8>, ptr: nat) -> bool {
    HEADER_SIZE <= ptr <= mem.len()
}

/// Header and payload both lie inside memory.
pub open spec fn object_in_bounds(mem: Seq<u8>, ptr: nat) -> bool {
    header_in_bounds(mem, ptr) && ptr + payload_len(mem, ptr) <= mem.len()
}

/// What lifting the string object at `ptr` reads from memory: its code units,
/// or an out-of-bounds failure.
pub open spec fn lift_units(mem: Seq<u8>, ptr: nat) -> Result<Seq<u16>, MemoryAccessError> {
    if object_in_bounds(mem, ptr) {
        Ok(units_of_le(mem.subrange(ptr as int, (ptr + payload_len(mem, ptr)) as int)))
    } else {
        Err(MemoryAccessError::OutOfBounds)
    }
}

/// Memory after `data` was written at `offset`.
pub open spec fn write_range(mem: Seq<u8>, offset: nat, data: Seq<u8>) -> Seq<u8> {
    mem.subrange(0, offset as int) + data + mem.subrange((offset + data.len()) as int, mem.len() as int)
}

/// Offset of the header before a payload, or `None` where the payload starts
/// too low for a header to precede it.
pub fn header_offset(ptr: u32) -> (r: Option<u32>)
    ensures
        r == (if ptr >= HEADER_SIZE {
            Some((ptr - HEADER_SIZE) as u32)
        } else {
            None::<u32>
        }),
{
    if ptr >= HEADER_SIZE {
        Some(ptr - HEADER_SIZE)
    } else {
        None
    }
}

/// Reads the little-endian `u32` held in four bytes.
pub fn read_le_u32(b: &[u8]) -> (r: u32)
    requires
        b@.len() == 4,
    ensures
        r as nat == le_u32(b@),
{
    let r: u32 = b[0] as u32 + 256 * (b[1] as u32) + 65536 * (b[2] as u32) + 16777216 * (
    b[3] as u32);
    r
}

/// Decodes bytes into code units, little-endian pairs.
pub fn units_from_le_bytes(b: &[u8]) -> (r: Vec<u16>)
    ensures
        r@ == units_of_le(b@),
{
    let len: usize = b.len();
    let n: usize = len / 2;
    let mut r: Vec<u16> = Vec::with_capacity(n);
    let mut i: usize = 0;
    while i < n
        invariant
            len == b@.len(),
            n == b@.len() / 2,
            i <= n,
            r@ =~= units_of_le(b@).subrange(0, i as int),
        decreases n - i,
    {
        assert(2 * i + 1 < b@.len());
        let lo: u16 = b[2 * i] as u16;
        let hi: u16 = b[2 * i + 1] as u16;
        let u: u16 = lo + 256 * hi;
        assert(u == (b@[2 * i as int] as int + 256 * (b@[2 * i + 1] as int)) as u16);
        r.push(u);
        i = i + 1;
    }
    r
}

/// Encodes code units as bytes, low byte first.
pub fn le_bytes_from_units(u: &[u16]) -> (r: Vec<u8>)
    requires
        2 * u@.len() <= usize::MAX,
    ensures
        r@ == le_of_units(u@),
{
    let n: usize = u.len();
    let mut r: Vec<u8> = Vec::with_capacity(2 * n);
    let mut i: usize = 0;
    while i < n
        invariant
            n == u@.len(),
            i <= n,
            r@ =~= le_of_units(u@).subrange(0, 2 * i),
        decreases n - i,
    {
        let x: u16 = u[i];
        r.push((x % 256) as u8);
        r.push((x / 256) as u8);
        i = i + 1;
    }
    r
}

/// Code units stored little-endian and read back are the same code units.
pub proof fn lemma_units_le_round_trip(u: Seq<u16>)
    ensures
        units_of_le(le_of_units(u)) == u,
{
    let b = le_of_units(u);
    assert forall|i: int| 0 <= i < u.len() implies units_of_le(b)[i] == u[i] by {
        let x = u[i] as int;
        assert((2 * i) / 2 == i && (2 * i + 1) / 2 == i);
        assert((2 * i) % 2 == 0 && (2 * i + 1) % 2 == 1);
        assert(b[2 * i] == (x % 256) as u8);
        assert(b[2 * i + 1] == (x / 256) as u8);
        assert(x % 256 + 256 * (x / 256) == x);
    }
    assert(units_of_le(b) =~= u);
}

/// Lifting the object at `ptr` after its payload was written with code units
/// `u`, where the header already holds their byte length, reads `u` back.
pub proof fn law_lift_after_write(mem: Seq<u8>, ptr: nat, u: Seq<u16>)
    requires
        header_in_bounds(mem, ptr),
        stored_len(mem, ptr) == 2 * u.len(),
        ptr + 2 * u.len() <= mem.len(),
    ensures
        lift_units(write_range(mem, ptr, le_of_units(u)), ptr) == Ok::<Seq<u16>, MemoryAccessError>(u),
{
    let data = le_of_units(u);
    let m2 = write_range(mem, ptr, data);
    assert(m2.len() == mem.len());
    assert(m2.subrange(header_at(ptr), ptr as int) =~= mem.subrange(header_at(ptr), ptr as int));
    assert(stored_len(m2, ptr) == 2 * u.len());
    assert(payload_len(m2, ptr) == 2 * u.len());
    assert(m2.subrange(ptr as int, (ptr + 2 * u.len()) as int) =~= data);
    lemma_units_le_round_trip(u);
}

/// One past the last payload byte of the object at `ptr`.
pub open spec fn object_end(mem: Seq<u8>, ptr: nat) -> int {
    (ptr + payload_len(mem, ptr)) as int
}

/// A lift past the end of memory fails with `OutOfBounds`, and a lift that
/// succeeds depends on the header and payload bytes alone: two memories that
/// agree on them give the same result.
pub proof fn law_lift_bounds(m1: Seq<u8>, m2: Seq<u8>, ptr: nat)
    ensures
        !object_in_bounds(m1, ptr) ==> lift_units(m1, ptr) == Err::<Seq<u16>, MemoryAccessError>(
            MemoryAccessError::OutOfBounds,
        ),
        object_in_bounds(m1, ptr) && header_in_bounds(m2, ptr) && object_end(m1, ptr) <= m2.len()
            && m1.subrange(header_at(ptr), object_end(m1, ptr)) == m2.subrange(
            header_at(ptr),
            object_end(m1, ptr),
        ) ==> lift_units(m1, ptr) == lift_units(m2, ptr),
{
    let end = object_end(m1, ptr);
    if object_in_bounds(m1, ptr) && header_in_bounds(m2, ptr) && end <= m2.len()
        && m1.subrange(header_at(ptr), end) == m2.subrange(header_at(ptr), end) {
        let a = m1.subrange(header_at(ptr), end);
        let b = m2.subrange(header_at(ptr), end);
        assert(m1.subrange(header_at(ptr), ptr as int) =~= a.subrange(0, HEADER_SIZE as int));
        assert(m2.subrange(header_at(ptr), ptr as int) =~= b.subrange(0, HEADER_SIZE as int));
        assert(payload_len(m2, ptr) == payload_len(m1, ptr));
        assert(m1.subrange(ptr as int, end) =~= a.subrange(HEADER_SIZE as int, a.len() as int));
        assert(m2.subrange(ptr as int, end) =~= b.subrange(HEADER_SIZE as int, b.len() as int));
    }
}

} // verus!
