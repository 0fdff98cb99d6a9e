use ngx::arena::Arena;

#[test]
fn allocate_and_get_during_scope() {
    let mut pool: Arena<u64> = Arena::new();
    assert_eq!(pool.len(), 0);
    let a = pool.allocate(42);
    let b = pool.allocate(7);
    assert_eq!(pool.len(), 2);
    assert_eq!(pool.get(a), Some(&42));
    assert_eq!(pool.get(b), Some(&7));
}

#[test]
fn get_with_foreign_handle_yields_nothing() {
    let mut pool: Arena<u64> = Arena::new();
    let a = pool.allocate(1);
    assert_eq!(pool.get(a + 1), None);
}

#[test]
fn update_replaces_value_behind_handle() {
    let mut pool: Arena<u64> = Arena::new();
    let a = pool.allocate(1);
    pool.update(a, 99);
    assert_eq!(pool.get(a), Some(&99));
}

#[test]
fn handles_are_invalid_once_scope_ends() {
    // An allocation from a request-scoped arena must not be dereferenced
    // after the request's handling completes: ending the scope frees
    // everything at once and every handle yields nothing from then on.
    let mut pool: Arena<u64> = Arena::new();
    let a = pool.allocate(42);
    let b = pool.allocate(7);
    assert_eq!(pool.get(a), Some(&42));
    pool.end_scope();
    assert_eq!(pool.get(a), None);
    assert_eq!(pool.get(b), None);
    assert_eq!(pool.len(), 0);
}
