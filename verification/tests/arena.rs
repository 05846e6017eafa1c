use felico::arena::typed_arena::TypedArena;
use felico::base::error::FelicoResult;

#[test]
fn basic_add() -> FelicoResult<()> {
    let mut arena = TypedArena::new();
    let index = arena.add("foo")?;
    assert_eq!(arena.get(&index)?, &"foo");
    Ok(())
}

#[test]
fn basic_remove() -> FelicoResult<()> {
    let mut arena = TypedArena::new();
    let index = arena.add("foo")?;
    arena.remove(&index)?;
    let error = arena.get(&index).expect_err("Expected error");
    assert_eq!(&error.to_test_string(), &"Error: Arena is free at index 0\n");
    Ok(())
}

#[test]
fn remove_keeps_other_entries() {
    let mut arena = TypedArena::new();
    let first = arena.add(1u32).unwrap();
    let second = arena.add(2u32).unwrap();
    let third = arena.add(3u32).unwrap();
    arena.remove(&second).unwrap();
    assert_eq!(*arena.get(&first).unwrap(), 1);
    assert_eq!(*arena.get(&third).unwrap(), 3);
    assert_eq!(
        arena.get(&second).err().unwrap().message,
        "Arena is free at index 1"
    );
}

#[test]
fn removing_twice_fails() {
    let mut arena = TypedArena::new();
    let handle = arena.add("x").unwrap();
    arena.remove(&handle).unwrap();
    let error = arena.remove(&handle).err().unwrap();
    assert_eq!(error.message, "Arena is free at index 0");
}

#[test]
fn handles_of_another_arena_are_refused() {
    let mut first = TypedArena::new();
    let mut second = TypedArena::new();
    let handle = first.add(10u8).unwrap();
    let _ = second.add(20u8).unwrap();
    // Each arena draws its own cookie; two arenas may draw the same one, so the check
    // only holds when the cookies differ.
    if let Err(error) = second.get(&handle) {
        assert_eq!(error.message, "Wrong cookie used to access arena");
    }
}

#[test]
fn removing_twice_changes_nothing() {
    let mut arena = TypedArena::new();
    let first = arena.add(7u32).unwrap();
    let second = arena.add(8u32).unwrap();
    arena.remove(&first).unwrap();
    assert_eq!(arena.remove(&first).err().unwrap().message, "Arena is free at index 0");
    assert_eq!(arena.remove(&first).err().unwrap().message, "Arena is free at index 0");
    assert_eq!(arena.get(&first).err().unwrap().message, "Arena is free at index 0");
    assert_eq!(*arena.get(&second).unwrap(), 8);
}
