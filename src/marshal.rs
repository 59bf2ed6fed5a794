//! `lift` and `lower`: strings across the host/guest boundary.
use crate::context::{ConfigurationError, Env};
use crate::guest::{
    call_guest, data_size, decode_utf16_lossy, encode_utf16, read_bytes, runtime_error, utf16_lossy,
    lemma_utf16_len_bound, utf16_of, view_bytes, view_of, write_bytes, CallOutcome,
};
use crate::layout::{
    header_offset, law_lift_after_write, le_bytes_from_units, le_of_units, lift_units, read_le_u32,
    stored_len, units_from_le_bytes, write_range, MemoryAccessError, HEADER_SIZE,
};
use vstd::prelude::*;
use wasmer::{FunctionEnvMut, MemoryView, RuntimeError};

verus! {

/// Runtime class id of `String` in the AssemblyScript runtime, handed to the
/// allocator.
pub const STRING_CLASS_ID: i32 = 2;

/// The guest allocator could not provide a string object.
#[derive(Debug, Clone, Copy, PartialEq, Eq, Structural)]
pub enum AllocationError {
    /// The string's byte size does not fit the allocator's `i32` argument.
    TooLarge,
    /// The allocator trapped.
    Trapped,
    /// The allocator returned no `i32` pointer.
    NoPointer,
    /// Pinning the new object trapped.
    PinTrapped,
}

/// Every way a bridge call can fail.
#[derive(Debug, Clone, Copy, PartialEq, Eq, Structural)]
pub enum BridgeError {
    Configuration(ConfigurationError),
    MemoryAccess(MemoryAccessError),
    Allocation(AllocationError),
}

impl BridgeError {
    /// The description of each failure.
    pub open spec fn message_spec(&self) -> Seq<char> {
        match self {
            BridgeError::Configuration(ConfigurationError::AlreadyBound) => "capability bound twice"@,
            BridgeError::Configuration(ConfigurationError::Unbound) => "capability used before it was bound"@,
            BridgeError::Configuration(ConfigurationError::MissingExport) => "guest export missing"@,
            BridgeError::Configuration(ConfigurationError::ForeignStore) => "capability from another store"@,
            BridgeError::MemoryAccess(MemoryAccessError::OutOfBounds) => "memory access out of bounds"@,
            BridgeError::Allocation(AllocationError::TooLarge) => "string too large for the guest allocator"@,
            BridgeError::Allocation(AllocationError::Trapped) => "guest allocator trapped"@,
            BridgeError::Allocation(AllocationError::NoPointer) => "guest allocator returned no pointer"@,
            BridgeError::Allocation(AllocationError::PinTrapped) => "pinning the new string trapped"@,
        }
    }

    /// A description for the trap that carries this error to the guest.
    pub fn message(&self) -> (r: String)
        ensures
            r@ == self.message_spec(),
    {
        match self {
            BridgeError::Configuration(ConfigurationError::AlreadyBound) => {
                proof { reveal_strlit("capability bound twice"); }
                "capability bound twice".to_string()
            },
            BridgeError::Configuration(ConfigurationError::Unbound) => {
                proof { reveal_strlit("capability used before it was bound"); }
                "capability used before it was bound".to_string()
            },
            BridgeError::Configuration(ConfigurationError::MissingExport) => {
                proof { reveal_strlit("guest export missing"); }
                "guest export missing".to_string()
            },
            BridgeError::Configuration(ConfigurationError::ForeignStore) => {
                proof { reveal_strlit("capability from another store"); }
                "capability from another store".to_string()
            },
            BridgeError::MemoryAccess(MemoryAccessError::OutOfBounds) => {
                proof { reveal_strlit("memory access out of bounds"); }
                "memory access out of bounds".to_string()
            },
            BridgeError::Allocation(AllocationError::TooLarge) => {
                proof { reveal_strlit("string too large for the guest allocator"); }
                "string too large for the guest allocator".to_string()
            },
            BridgeError::Allocation(AllocationError::Trapped) => {
                proof { reveal_strlit("guest allocator trapped"); }
                "guest allocator trapped".to_string()
            },
            BridgeError::Allocation(AllocationError::NoPointer) => {
                proof { reveal_strlit("guest allocator returned no pointer"); }
                "guest allocator returned no pointer".to_string()
            },
            BridgeError::Allocation(AllocationError::PinTrapped) => {
                proof { reveal_strlit("pinning the new string trapped"); }
                "pinning the new string trapped".to_string()
            },
        }
    }
}

/// Decodes the string object whose payload starts at `ptr` in the memory
/// that `view` covers.
pub fn lift_from_view(view: &MemoryView, ptr: i32) -> (r: Result<String, MemoryAccessError>)
    ensures
        match lift_units(view_bytes(*view), ptr as u32 as nat) {
            Ok(u) => r matches Ok(s) && s@ == utf16_lossy(u),
            Err(e) => r == Err::<String, MemoryAccessError>(e),
        },
        forall|s: Seq<char>|
            lift_units(view_bytes(*view), ptr as u32 as nat) == Ok::<Seq<u16>, MemoryAccessError>(
                #[trigger] utf16_of(s),
            ) ==> (r matches Ok(t) && t@ == s),
{
    let p: u32 = ptr as u32;
    let h: u32 = match header_offset(p) {
        Some(h) => h,
        None => return Err(MemoryAccessError::OutOfBounds),
    };
    let header: Vec<u8> = match read_bytes(view, h as u64, HEADER_SIZE as usize) {
        Some(b) => b,
        None => return Err(MemoryAccessError::OutOfBounds),
    };
    let len: u32 = read_le_u32(header.as_slice());
    let n: usize = (len / 2 * 2) as usize;
    if n as u64 > data_size(view) - p as u64 {
        return Err(MemoryAccessError::OutOfBounds);
    }
    let payload: Vec<u8> = match read_bytes(view, p as u64, n) {
        Some(b) => b,
        None => return Err(MemoryAccessError::OutOfBounds),
    };
    let units: Vec<u16> = units_from_le_bytes(payload.as_slice());
    Ok(decode_utf16_lossy(units.as_slice()))
}

/// Writes code units, little-endian, as the payload at `ptr`.
pub fn write_units_at(view: &mut MemoryView, ptr: u32, units: &[u16]) -> (r: Result<
    (),
    MemoryAccessError,
>)
    requires
        2 * units@.len() <= usize::MAX,
    ensures
        r is Ok <==> ptr + 2 * units@.len() <= view_bytes(*old(view)).len(),
        r is Ok ==> view_bytes(*final(view)) == write_range(
            view_bytes(*old(view)),
            ptr as nat,
            le_of_units(units@),
        ),
        r is Err ==> r == Err::<(), MemoryAccessError>(MemoryAccessError::OutOfBounds)
            && view_bytes(*final(view)) == view_bytes(*old(view)),
{
    let bytes: Vec<u8> = le_bytes_from_units(units);
    if write_bytes(view, ptr as u64, bytes.as_slice()) {
        Ok(())
    } else {
        Err(MemoryAccessError::OutOfBounds)
    }
}

/// The byte size to request from the allocator for `n` code units.
pub fn alloc_size(n: usize) -> (r: Result<i32, AllocationError>)
    ensures
        match r {
            Ok(size) => size == 2 * n,
            Err(e) => 2 * n > i32::MAX && e == AllocationError::TooLarge,
        },
{
    if n > (i32::MAX / 2) as usize {
        Err(AllocationError::TooLarge)
    } else {
        Ok((2 * n) as i32)
    }
}

/// Decodes the guest string at `ptr` in the memory bound in `env`, within the
/// store of the running call.
pub fn lift_string(env: &Env, ctx: &mut FunctionEnvMut<'_, Env>, ptr: i32) -> (r: Result<
    String,
    BridgeError,
>)
    ensures
        env.memory_slot() is None ==> r == Err::<String, BridgeError>(
            BridgeError::Configuration(ConfigurationError::Unbound),
        ),
        r matches Err(e) ==> e == BridgeError::Configuration(ConfigurationError::Unbound) || e
            == BridgeError::Configuration(ConfigurationError::ForeignStore) || e
            == BridgeError::MemoryAccess(MemoryAccessError::OutOfBounds),
{
    let view: MemoryView = match env.memory_view(ctx) {
        Ok(v) => v,
        Err(e) => return Err(BridgeError::Configuration(e)),
    };
    match lift_from_view(&view, ptr) {
        Ok(s) => Ok(s),
        Err(e) => Err(BridgeError::MemoryAccess(e)),
    }
}

/// The pointer that an allocator call yields, or why it yields none.
pub open spec fn alloc_result(alloc: CallOutcome) -> Result<u32, BridgeError> {
    match alloc {
        CallOutcome::Returned(Some(p)) => Ok(p as u32),
        CallOutcome::Returned(None) => Err(BridgeError::Allocation(AllocationError::NoPointer)),
        CallOutcome::Trapped => Err(BridgeError::Allocation(AllocationError::Trapped)),
        CallOutcome::ForeignStore => Err(BridgeError::Configuration(ConfigurationError::ForeignStore)),
    }
}

/// The result of lowering once the pin call on `ptr` came to `pin`.
pub open spec fn pin_result(ptr: u32, pin: CallOutcome) -> Result<u32, BridgeError> {
    match pin {
        CallOutcome::Returned(_) => Ok(ptr),
        CallOutcome::Trapped => Err(BridgeError::Allocation(AllocationError::PinTrapped)),
        CallOutcome::ForeignStore => Err(BridgeError::Configuration(ConfigurationError::ForeignStore)),
    }
}

/// Stores code units in the object that the allocator call `alloc` gave:
/// nothing is written unless it gave a pointer, and the units are written
/// at that pointer when they fit in memory.
pub fn store_lowered(view: &mut MemoryView, alloc: CallOutcome, units: &[u16]) -> (r: Result<
    u32,
    BridgeError,
>)
    requires
        2 * units@.len() <= usize::MAX,
    ensures
        match alloc_result(alloc) {
            Err(e) => r == Err::<u32, BridgeError>(e) && view_bytes(*final(view)) == view_bytes(
                *old(view),
            ),
            Ok(p) => if p + 2 * units@.len() <= view_bytes(*old(view)).len() {
                r == Ok::<u32, BridgeError>(p) && view_bytes(*final(view)) == write_range(
                    view_bytes(*old(view)),
                    p as nat,
                    le_of_units(units@),
                )
            } else {
                r == Err::<u32, BridgeError>(BridgeError::MemoryAccess(MemoryAccessError::OutOfBounds))
                    && view_bytes(*final(view)) == view_bytes(*old(view))
            },
        },
{
    let p: u32 = match alloc {
        CallOutcome::Returned(Some(p)) => p as u32,
        CallOutcome::Returned(None) => return Err(BridgeError::Allocation(AllocationError::NoPointer)),
        CallOutcome::Trapped => return Err(BridgeError::Allocation(AllocationError::Trapped)),
        CallOutcome::ForeignStore => return Err(BridgeError::Configuration(ConfigurationError::ForeignStore)),
    };
    match write_units_at(view, p, units) {
        Ok(()) => Ok(p),
        Err(e) => Err(BridgeError::MemoryAccess(e)),
    }
}

/// The result of lowering once the pin call on `ptr` came to `pin`: the
/// pointer is handed out only when the pin returned.
pub fn finish_pin(ptr: u32, pin: CallOutcome) -> (r: Result<u32, BridgeError>)
    ensures
        r == pin_result(ptr, pin),
{
    match pin {
        CallOutcome::Returned(_) => Ok(ptr),
        CallOutcome::Trapped => Err(BridgeError::Allocation(AllocationError::PinTrapped)),
        CallOutcome::ForeignStore => Err(BridgeError::Configuration(ConfigurationError::ForeignStore)),
    }
}

/// Encodes `value` into a new guest string object with the capabilities
/// bound in `env`: asks the allocator for `alloc_size` bytes of class
/// `STRING_CLASS_ID`, stores the UTF-16 code units with `store_lowered`, and
/// pins the object with `finish_pin`; returns the object's pointer.
pub fn lower_string(env: &Env, ctx: &mut FunctionEnvMut<'_, Env>, value: &str) -> (r: Result<
    u32,
    BridgeError,
>)
    ensures
        r == Err::<u32, BridgeError>(BridgeError::Allocation(AllocationError::TooLarge))
            <==> utf16_of(value@).len() > i32::MAX / 2,
        utf16_of(value@).len() <= i32::MAX / 2 && (env.memory_slot() is None
            || env.new_slot() is None || env.pin_slot() is None) ==> r == Err::<u32, BridgeError>(
            BridgeError::Configuration(ConfigurationError::Unbound),
        ),
        r is Ok ==> env.memory_slot() is Some && env.new_slot() is Some && env.pin_slot() is Some,
{
    let units: Vec<u16> = encode_utf16(value);
    let size: i32 = match alloc_size(units.len()) {
        Ok(s) => s,
        Err(e) => return Err(BridgeError::Allocation(e)),
    };
    let (memory, fn_new, fn_pin) = match env.lower_capabilities() {
        Ok(caps) => caps,
        Err(e) => return Err(BridgeError::Configuration(e)),
    };
    let alloc: CallOutcome = call_guest(fn_new, ctx, &[size, STRING_CLASS_ID]);
    let ptr: u32 = {
        let mut view: MemoryView = match view_of(memory, ctx) {
            Some(v) => v,
            None => return Err(BridgeError::Configuration(ConfigurationError::ForeignStore)),
        };
        match store_lowered(&mut view, alloc, units.as_slice()) {
            Ok(p) => p,
            Err(e) => return Err(e),
        }
    };
    let pin: CallOutcome = call_guest(fn_pin, ctx, &[ptr as i32]);
    finish_pin(ptr, pin)
}

/// What the guest sees of a lowering: the pointer unchanged, or a trap
/// carrying the failure's description.
pub fn pointer_or_trap(lowered: Result<u32, BridgeError>) -> (r: Result<u32, RuntimeError>)
    ensures
        lowered matches Ok(p) ==> r matches Ok(q) && q == p,
        lowered is Err ==> r is Err,
{
    match lowered {
        Ok(p) => Ok(p),
        Err(e) => Err(runtime_error(e.message())),
    }
}

/// The guest-callable `getString`: lowers the demonstration string and hands
/// its pointer to the guest, or traps with the failure's description.
pub fn get_string(env: &Env, ctx: &mut FunctionEnvMut<'_, Env>) -> (r: Result<u32, RuntimeError>)
    ensures
        env.memory_slot() is None || env.new_slot() is None || env.pin_slot() is None ==> r is Err,
        r is Ok ==> env.memory_slot() is Some && env.new_slot() is Some && env.pin_slot() is Some,
{
    proof {
        reveal_strlit("Hello AssemblyScript!");
        assert(utf16_of("Hello AssemblyScript!"@).len() <= i32::MAX / 2) by {
            lemma_utf16_len_bound("Hello AssemblyScript!"@);
        }
    }
    pointer_or_trap(lower_string(env, ctx, "Hello AssemblyScript!"))
}

/// Writing a string's UTF-16 code units as the payload of an object whose
/// header, set by the allocator, holds their byte length, and lifting that
/// object again, reads exactly those code units; by the contract of
/// `lift_from_view`, the lifted string is then the string itself.
pub proof fn law_lower_then_lift(mem: Seq<u8>, ptr: u32, s: Seq<char>)
    requires
        HEADER_SIZE <= ptr,
        ptr + 2 * utf16_of(s).len() <= mem.len(),
        stored_len(mem, ptr as nat) == 2 * utf16_of(s).len(),
    ensures
        lift_units(write_range(mem, ptr as nat, le_of_units(utf16_of(s))), ptr as i32 as u32 as nat)
            == Ok::<Seq<u16>, MemoryAccessError>(utf16_of(s)),
{
    assert(ptr as i32 as u32 == ptr) by (bit_vector);
    law_lift_after_write(mem, ptr as nat, utf16_of(s));
}

} // verus!
