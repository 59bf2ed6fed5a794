//! The host context: guest capabilities, each bound at most once.
use crate::guest::view_of;
use vstd::prelude::*;
use wasmer::{Function, FunctionEnvMut, Memory, MemoryView};

verus! {

/// A wiring mistake: a capability bound twice, used before it was bound, or
/// missing from the guest's exports.
#[derive(Debug, Clone, Copy, PartialEq, Eq, Structural)]
pub enum ConfigurationError {
    AlreadyBound,
    Unbound,
    MissingExport,
    /// A capability belongs to another store than the running call's.
    ForeignStore,
}

/// Binding `v` into a slot: the new slot and the outcome.
pub open spec fn bind_slot<T>(slot: Option<T>, v: T) -> (Option<T>, Result<(), ConfigurationError>) {
    match slot {
        Some(_) => (slot, Err(ConfigurationError::AlreadyBound)),
        None => (Some(v), Ok(())),
    }
}

/// Reading a slot: what it holds, or `Unbound`.
pub open spec fn read_slot<T>(slot: Option<T>) -> Result<T, ConfigurationError> {
    match slot {
        Some(v) => Ok(v),
        None => Err(ConfigurationError::Unbound),
    }
}

/// A setter called twice on one slot fails the second time with
/// `AlreadyBound`, whatever was bound first, and leaves the first binding in
/// place; a getter on a slot that was never bound fails with `Unbound`.
pub proof fn law_single_assignment<T>(slot: Option<T>, first: T, second: T)
    ensures
        bind_slot(bind_slot(slot, first).0, second).1 == Err::<(), ConfigurationError>(
            ConfigurationError::AlreadyBound,
        ),
        bind_slot(bind_slot(slot, first).0, second).0 == bind_slot(slot, first).0,
        read_slot(None::<T>) == Err::<T, ConfigurationError>(ConfigurationError::Unbound),
{
}

/// The guest capabilities the marshaling layer needs: linear memory, the
/// allocator, and pin / unpin.
#[derive(Clone)]
pub struct Env {
    memory: Option<Memory>,
    fn_new: Option<Function>,
    fn_pin: Option<Function>,
    fn_unpin: Option<Function>,
}

impl Env {
    pub closed spec fn memory_slot(&self) -> Option<Memory> {
        self.memory
    }

    pub closed spec fn new_slot(&self) -> Option<Function> {
        self.fn_new
    }

    pub closed spec fn pin_slot(&self) -> Option<Function> {
        self.fn_pin
    }

    pub closed spec fn unpin_slot(&self) -> Option<Function> {
        self.fn_unpin
    }

    /// A context with nothing bound.
    pub fn new() -> (r: Env)
        ensures
            r.memory_slot() is None,
            r.new_slot() is None,
            r.pin_slot() is None,
            r.unpin_slot() is None,
    {
        Env { memory: None, fn_new: None, fn_pin: None, fn_unpin: None }
    }

    /// Another handle to the bound memory, or `None` while it is unbound.
    pub fn memory_clone(&self) -> (r: Option<Memory>)
        ensures
            r == self.memory_slot(),
    {
        match &self.memory {
            Some(m) => Some(m.clone()),
            None => None,
        }
    }

    /// Binds the memory, once.
    pub fn set_memory(&mut self, memory: Memory) -> (r: Result<(), ConfigurationError>)
        ensures
            (final(self).memory_slot(), r) == bind_slot(old(self).memory_slot(), memory),
            final(self).new_slot() == old(self).new_slot(),
            final(self).pin_slot() == old(self).pin_slot(),
            final(self).unpin_slot() == old(self).unpin_slot(),
    {
        if self.memory.is_some() {
            return Err(ConfigurationError::AlreadyBound);
        }
        self.memory = Some(memory);
        Ok(())
    }

    /// Binds the allocator, once.
    pub fn set_fn_new(&mut self, fn_new: Function) -> (r: Result<(), ConfigurationError>)
        ensures
            (final(self).new_slot(), r) == bind_slot(old(self).new_slot(), fn_new),
            final(self).memory_slot() == old(self).memory_slot(),
            final(self).pin_slot() == old(self).pin_slot(),
            final(self).unpin_slot() == old(self).unpin_slot(),
    {
        if self.fn_new.is_some() {
            return Err(ConfigurationError::AlreadyBound);
        }
        self.fn_new = Some(fn_new);
        Ok(())
    }

    /// Binds the pin function, once.
    pub fn set_fn_pin(&mut self, fn_pin: Function) -> (r: Result<(), ConfigurationError>)
        ensures
            (final(self).pin_slot(), r) == bind_slot(old(self).pin_slot(), fn_pin),
            final(self).memory_slot() == old(self).memory_slot(),
            final(self).new_slot() == old(self).new_slot(),
            final(self).unpin_slot() == old(self).unpin_slot(),
    {
        if self.fn_pin.is_some() {
            return Err(ConfigurationError::AlreadyBound);
        }
        self.fn_pin = Some(fn_pin);
        Ok(())
    }

    /// Binds the unpin function, once.
    pub fn set_fn_unpin(&mut self, fn_unpin: Function) -> (r: Result<(), ConfigurationError>)
        ensures
            (final(self).unpin_slot(), r) == bind_slot(old(self).unpin_slot(), fn_unpin),
            final(self).memory_slot() == old(self).memory_slot(),
            final(self).new_slot() == old(self).new_slot(),
            final(self).pin_slot() == old(self).pin_slot(),
    {
        if self.fn_unpin.is_some() {
            return Err(ConfigurationError::AlreadyBound);
        }
        self.fn_unpin = Some(fn_unpin);
        Ok(())
    }

    /// The bound memory.
    pub fn memory(&self) -> (r: Result<&Memory, ConfigurationError>)
        ensures
            match r {
                Ok(m) => read_slot(self.memory_slot()) == Ok::<Memory, ConfigurationError>(*m),
                Err(e) => read_slot(self.memory_slot()) == Err::<Memory, ConfigurationError>(e),
            },
    {
        match &self.memory {
            Some(m) => Ok(m),
            None => Err(ConfigurationError::Unbound),
        }
    }

    /// The bound allocator.
    pub fn fn_new(&self) -> (r: Result<&Function, ConfigurationError>)
        ensures
            match r {
                Ok(f) => read_slot(self.new_slot()) == Ok::<Function, ConfigurationError>(*f),
                Err(e) => read_slot(self.new_slot()) == Err::<Function, ConfigurationError>(e),
            },
    {
        match &self.fn_new {
            Some(f) => Ok(f),
            None => Err(ConfigurationError::Unbound),
        }
    }

    /// The bound pin function.
    pub fn fn_pin(&self) -> (r: Result<&Function, ConfigurationError>)
        ensures
            match r {
                Ok(f) => read_slot(self.pin_slot()) == Ok::<Function, ConfigurationError>(*f),
                Err(e) => read_slot(self.pin_slot()) == Err::<Function, ConfigurationError>(e),
            },
    {
        match &self.fn_pin {
            Some(f) => Ok(f),
            None => Err(ConfigurationError::Unbound),
        }
    }

    /// The bound unpin function.
    pub fn fn_unpin(&self) -> (r: Result<&Function, ConfigurationError>)
        ensures
            match r {
                Ok(f) => read_slot(self.unpin_slot()) == Ok::<Function, ConfigurationError>(*f),
                Err(e) => read_slot(self.unpin_slot()) == Err::<Function, ConfigurationError>(e),
            },
    {
        match &self.fn_unpin {
            Some(f) => Ok(f),
            None => Err(ConfigurationError::Unbound),
        }
    }

    /// A view of the bound memory in the store that `ctx` borrows; it holds
    /// that borrow for as long as it lives.
    pub fn memory_view<'a>(&'a self, ctx: &'a mut FunctionEnvMut<'_, Env>) -> (r: Result<
        MemoryView<'a>,
        ConfigurationError,
    >)
        ensures
            self.memory_slot() is None ==> r matches Err(ConfigurationError::Unbound),
            self.memory_slot() is Some ==> (r is Ok || r matches Err(
                ConfigurationError::ForeignStore,
            )),
    {
        match &self.memory {
            Some(m) => match view_of(m, ctx) {
                Some(v) => Ok(v),
                None => Err(ConfigurationError::ForeignStore),
            },
            None => Err(ConfigurationError::Unbound),
        }
    }

    /// Memory, allocator and pin, which lowering a string needs, or `Unbound`
    /// when any of them is not bound.
    pub fn lower_capabilities(&self) -> (r: Result<(&Memory, &Function, &Function), ConfigurationError>)
        ensures
            match r {
                Ok((m, n, p)) => self.memory_slot() == Some(*m) && self.new_slot() == Some(*n)
                    && self.pin_slot() == Some(*p),
                Err(e) => e == ConfigurationError::Unbound && (self.memory_slot() is None
                    || self.new_slot() is None || self.pin_slot() is None),
            },
    {
        match (&self.memory, &self.fn_new, &self.fn_pin) {
            (Some(m), Some(n), Some(p)) => Ok((m, n, p)),
            _ => Err(ConfigurationError::Unbound),
        }
    }

    /// Binds every export the guest offers, all at once: fails with
    /// `MissingExport` when memory, allocator or pin is absent, and with
    /// `AlreadyBound` when a capability to bind is bound already; a failure
    /// leaves the context as it was.
    pub fn bind_capabilities(
        &mut self,
        memory: Option<Memory>,
        fn_new: Option<Function>,
        fn_pin: Option<Function>,
        fn_unpin: Option<Function>,
    ) -> (r: Result<(), ConfigurationError>)
        ensures
            r == (if memory is None || fn_new is None || fn_pin is None {
                Err(ConfigurationError::MissingExport)
            } else if old(self).memory_slot() is Some || old(self).new_slot() is Some
                || old(self).pin_slot() is Some || (fn_unpin is Some && old(self).unpin_slot() is Some) {
                Err(ConfigurationError::AlreadyBound)
            } else {
                Ok::<(), ConfigurationError>(())
            }),
            r.is_err() ==> *final(self) == *old(self),
            r.is_ok() ==> {
                &&& final(self).memory_slot() == memory
                &&& final(self).new_slot() == fn_new
                &&& final(self).pin_slot() == fn_pin
                &&& final(self).unpin_slot() == (if fn_unpin is Some {
                    fn_unpin
                } else {
                    old(self).unpin_slot()
                })
            },
    {
        let (memory, fn_new, fn_pin) = match (memory, fn_new, fn_pin) {
            (Some(m), Some(n), Some(p)) => (m, n, p),
            _ => return Err(ConfigurationError::MissingExport),
        };
        if self.memory.is_some() || self.fn_new.is_some() || self.fn_pin.is_some() || (
        fn_unpin.is_some() && self.fn_unpin.is_some()) {
            return Err(ConfigurationError::AlreadyBound);
        }
        self.memory = Some(memory);
        self.fn_new = Some(fn_new);
        self.fn_pin = Some(fn_pin);
        if let Some(u) = fn_unpin {
            self.fn_unpin = Some(u);
        }
        Ok(())
    }
}

} // verus!
