use as_string_bridge::context::{ConfigurationError, Env};
use wasmer::{BaseTunables, Engine, Function, Memory, MemoryType, NativeEngineExt, Pages, Store};

/// A store whose memories reserve only what they use, so that tests run
/// within a small address space.
fn small_store() -> Store {
    let mut engine = Engine::headless();
    engine.set_tunables(BaseTunables {
        static_memory_bound: Pages(1),
        static_memory_offset_guard_size: 0,
        dynamic_memory_offset_guard_size: 0,
    });
    Store::new(engine)
}


fn capabilities(store: &mut Store) -> (Memory, Function, Function) {
    let memory = Memory::new(store, MemoryType::new(1, Some(1), false)).unwrap();
    let alloc = Function::new_typed(store, |size: i32, _id: i32| -> i32 { size });
    let pin = Function::new_typed(store, |p: i32| -> i32 { p });
    (memory, alloc, pin)
}

#[test]
fn getters_fail_before_binding() {
    let env = Env::new();
    assert_eq!(env.memory().err(), Some(ConfigurationError::Unbound));
    assert_eq!(env.fn_new().err(), Some(ConfigurationError::Unbound));
    assert_eq!(env.fn_pin().err(), Some(ConfigurationError::Unbound));
    assert_eq!(env.fn_unpin().err(), Some(ConfigurationError::Unbound));
    assert!(env.memory_clone().is_none());
}

#[test]
fn setters_bind_once() {
    let mut store = small_store();
    let (memory, alloc, pin) = capabilities(&mut store);
    let mut env = Env::new();
    assert_eq!(env.set_memory(memory.clone()), Ok(()));
    assert_eq!(env.set_memory(memory.clone()), Err(ConfigurationError::AlreadyBound));
    assert_eq!(env.set_fn_new(alloc.clone()), Ok(()));
    assert_eq!(env.set_fn_new(alloc.clone()), Err(ConfigurationError::AlreadyBound));
    assert_eq!(env.set_fn_pin(pin.clone()), Ok(()));
    assert_eq!(env.set_fn_pin(pin.clone()), Err(ConfigurationError::AlreadyBound));
    assert_eq!(env.set_fn_unpin(pin.clone()), Ok(()));
    assert_eq!(env.set_fn_unpin(pin.clone()), Err(ConfigurationError::AlreadyBound));
    assert!(env.memory().unwrap() == &memory);
    assert!(env.fn_new().unwrap() == &alloc);
    assert!(env.fn_pin().unwrap() == &pin);
    assert!(env.memory_clone() == Some(memory));
}

#[test]
fn clones_share_bindings() {
    let mut store = small_store();
    let (memory, _, _) = capabilities(&mut store);
    let mut env = Env::new();
    env.set_memory(memory.clone()).unwrap();
    let copy = env.clone();
    assert!(copy.memory_clone() == Some(memory));
}

#[test]
fn wiring_requires_memory_alloc_and_pin() {
    let mut store = small_store();
    let (memory, alloc, pin) = capabilities(&mut store);
    let mut env = Env::new();
    assert_eq!(
        env.bind_capabilities(None, Some(alloc.clone()), Some(pin.clone()), None),
        Err(ConfigurationError::MissingExport)
    );
    assert_eq!(
        env.bind_capabilities(Some(memory.clone()), None, Some(pin.clone()), None),
        Err(ConfigurationError::MissingExport)
    );
    assert_eq!(
        env.bind_capabilities(Some(memory.clone()), Some(alloc.clone()), None, None),
        Err(ConfigurationError::MissingExport)
    );
    assert!(env.memory_clone().is_none());
    assert_eq!(
        env.bind_capabilities(Some(memory.clone()), Some(alloc.clone()), Some(pin.clone()), None),
        Ok(())
    );
    assert!(env.fn_unpin().is_err());
    assert_eq!(
        env.bind_capabilities(Some(memory), Some(alloc), Some(pin), None),
        Err(ConfigurationError::AlreadyBound)
    );
}
