//! The WebAssembly engine as seen from the library: its types, and the calls
//! the marshaling logic makes into it, each with what it is relied on to do.
use crate::context::Env;
use crate::layout::write_range;
use vstd::prelude::*;
use wasmer::{Function, FunctionEnvMut, Memory, MemoryView, RuntimeError, Value};


verus! {

#[verifier::external_type_specification]
#[verifier::external_body]
pub struct ExMemory(wasmer::Memory);

#[verifier::external_type_specification]
#[verifier::external_body]
pub struct ExFunction(wasmer::Function);

#[verifier::external_type_specification]
#[verifier::external_body]
pub struct ExRuntimeError(wasmer::RuntimeError);

#[verifier::external_type_specification]
#[verifier::external_body]
pub struct ExMemoryView<'a>(wasmer::MemoryView<'a>);

#[verifier::external_type_specification]
#[verifier::external_body]
#[verifier::reject_recursive_types(T)]
pub struct ExFunctionEnvMut<'a, T>(wasmer::FunctionEnvMut<'a, T>);

/// `Memory` derives `Clone` and `PartialEq` over its store handle: a clone is
/// a handle to the same memory.
pub assume_specification[ <wasmer::Memory as Clone>::clone ](m: &wasmer::Memory) -> (r:
    wasmer::Memory)
    ensures
        r == *m,
;

/// `Function` derives `Clone` and `PartialEq` over its store handle: a clone
/// is a handle to the same function.
pub assume_specification[ <wasmer::Function as Clone>::clone ](f: &wasmer::Function) -> (r:
    wasmer::Function)
    ensures
        r == *f,
;

/// The bytes of linear memory that a view covers; its length is the view's
/// data size. Verified code gets views only from `view_of`, which holds the
/// store mutably for the view's lifetime, so the bytes change only through
/// writes to that view.
pub uninterp spec fn view_bytes(v: MemoryView) -> Seq<u8>;

/// What `String::from_utf16_lossy` makes of a sequence of code units.
pub uninterp spec fn utf16_lossy(u: Seq<u16>) -> Seq<char>;

/// The UTF-16 code units of one character.
pub open spec fn utf16_of_char(c: char) -> Seq<u16> {
    let v = c as u32;
    if v < 0x10000 {
        seq![v as u16]
    } else {
        let w = (v - 0x10000) as u32;
        seq![(0xD800 + w / 0x400) as u16, (0xDC00 + w % 0x400) as u16]
    }
}

/// The UTF-16 encoding of a character sequence.
pub open spec fn utf16_of(s: Seq<char>) -> Seq<u16>
    decreases s.len(),
{
    if s.len() == 0 {
        Seq::empty()
    } else {
        utf16_of(s.drop_last()) + utf16_of_char(s.last())
    }
}

/// A character takes at most two code units.
pub proof fn lemma_utf16_len_bound(s: Seq<char>)
    ensures
        utf16_of(s).len() <= 2 * s.len(),
    decreases s.len(),
{
    if s.len() > 0 {
        lemma_utf16_len_bound(s.drop_last());
    }
}

/// Relies on `MemoryView::read`: it fills `len` bytes from `offset` when
/// `offset + len` does not pass the view's data size, and fails otherwise
/// (its error becomes `None`).
#[verifier::external_body]
pub(crate) fn read_bytes(view: &MemoryView, offset: u64, len: usize) -> (r: Option<Vec<u8>>)
    ensures
        r is Some <==> offset + len <= view_bytes(*view).len(),
        r matches Some(b) ==> b@ == view_bytes(*view).subrange(offset as int, offset + len),
{
    let mut buf = vec![0u8; len];
    view.read(offset, &mut buf).ok().map(|_| buf)
}

/// Relies on `MemoryView::data_size`: the size in bytes of the memory the
/// view covers.
#[verifier::external_body]
pub(crate) fn data_size(view: &MemoryView) -> (r: u64)
    ensures
        r == view_bytes(*view).len(),
{
    view.data_size()
}

/// Relies on `MemoryView::write`: it copies `data` to `offset` when the range
/// ends inside the view, and fails without writing otherwise (its error
/// becomes `false`).
#[verifier::external_body]
pub(crate) fn write_bytes(view: &mut MemoryView, offset: u64, data: &[u8]) -> (r: bool)
    ensures
        r <==> offset + data@.len() <= view_bytes(*old(view)).len(),
        r ==> view_bytes(*final(view)) == write_range(view_bytes(*old(view)), offset as nat, data@),
        !r ==> view_bytes(*final(view)) == view_bytes(*old(view)),
{
    view.write(offset, data).is_ok()
}

/// What a call into a guest function came to.
#[derive(Debug, Clone, Copy, PartialEq, Eq, Structural)]
pub enum CallOutcome {
    /// The function belongs to another store, so it was not called.
    ForeignStore,
    /// The call trapped.
    Trapped,
    /// The call returned; its first result when that is an `i32`.
    Returned(Option<i32>),
}

/// Relies on `Memory::view`: a view of the memory as it is now in the store
/// that `ctx` borrows, or `None` where the memory belongs to another store
/// (`Memory::is_from_store`), on which `view` would panic. The view holds
/// `ctx` mutably, so no other view, and no guest call, can touch the memory
/// while it lives.
#[verifier::external_body]
pub(crate) fn view_of<'a>(memory: &Memory, ctx: &'a mut FunctionEnvMut<'_, Env>) -> Option<
    MemoryView<'a>,
> {
    let store: &'a FunctionEnvMut<'_, Env> = ctx;
    if memory.is_from_store(store) {
        Some(memory.view(store))
    } else {
        None
    }
}

/// Relies on `Function::call`: runs the guest function on `args` as `i32`
/// values and reports its first result when that is an `i32`, or the trap.
/// A function of another store (`Function::is_from_store`), on which `call`
/// would panic, is not called.
#[verifier::external_body]
pub(crate) fn call_guest(f: &Function, ctx: &mut FunctionEnvMut<'_, Env>, args: &[i32]) -> CallOutcome {
    if !f.is_from_store(&*ctx) {
        return CallOutcome::ForeignStore;
    }
    let params: Vec<Value> = args.iter().map(|a| Value::I32(*a)).collect();
    match f.call(ctx, &params) {
        Ok(out) => CallOutcome::Returned(out.first().and_then(|v| v.i32())),
        Err(_) => CallOutcome::Trapped,
    }
}

/// Relies on `RuntimeError::new`: a trap that carries `message`.
#[verifier::external_body]
pub(crate) fn runtime_error(message: String) -> RuntimeError {
    RuntimeError::new(message)
}

/// Relies on `str::encode_utf16`: the string's UTF-16 code units.
#[verifier::external_body]
pub(crate) fn encode_utf16(s: &str) -> (r: Vec<u16>)
    ensures
        r@ == utf16_of(s@),
{
    s.encode_utf16().collect()
}

/// Relies on `String::from_utf16_lossy`: decodes code units, putting U+FFFD in
/// place of each invalid sequence; well-formed UTF-16 decodes to the
/// characters it encodes.
#[verifier::external_body]
pub(crate) fn decode_utf16_lossy(u: &[u16]) -> (r: String)
    ensures
        r@ == utf16_lossy(u@),
        forall|s: Seq<char>| #[trigger] utf16_of(s) == u@ ==> r@ == s,
{
    String::from_utf16_lossy(u)
}

} // verus!
