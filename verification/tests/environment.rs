use felico::compiler::interpret::environment::Environment;

#[test]
fn define_and_get() {
    let mut env: Environment<u32> = Environment::new();
    assert_eq!(env.get("a").err().unwrap(), "No variable named 'a' defined (get)");
    env.define("a", 1);
    assert_eq!(*env.get("a").unwrap(), 1);
    env.define("a", 2);
    assert_eq!(*env.get("a").unwrap(), 2);
}

#[test]
fn inner_frames_shadow_and_exit_restores() {
    let mut env: Environment<u32> = Environment::new();
    env.define("a", 1);
    env.define("b", 10);
    env.enter_new();
    env.define("a", 2);
    assert_eq!(*env.get("a").unwrap(), 2);
    assert_eq!(*env.get("b").unwrap(), 10);
    assert!(env.assign("b", 11).is_ok());
    env.exit();
    assert_eq!(*env.get("a").unwrap(), 1);
    assert_eq!(*env.get("b").unwrap(), 11);
    assert_eq!(env.assign("c", 3).err().unwrap(), "No variable named 'c' defined (assign)");
}

#[test]
fn reads_and_writes_at_distance() {
    let mut env: Environment<u32> = Environment::new();
    env.define("x", 1);
    env.enter_new();
    env.enter_new();
    env.define("x", 3);
    assert_eq!(*env.get_at_distance("x", 0).unwrap(), 3);
    assert_eq!(*env.get_at_distance("x", 2).unwrap(), 1);
    assert_eq!(*env.get_at_distance("x", -1).unwrap(), 3);
    assert_eq!(
        env.get_at_distance("x", 1).err().unwrap(),
        "No variable named 'x' defined (get at distance 1) "
    );
    assert_eq!(
        env.get_at_distance("x", 3).err().unwrap(),
        "Failed to get parent when retrieving 'x'"
    );
    assert!(env.assign_at_distance("x", 2, 7).is_ok());
    assert_eq!(*env.get_at_distance("x", 2).unwrap(), 7);
    assert_eq!(*env.get("x").unwrap(), 3);
    assert!(env.assign_at_distance("x", 1, 9).is_err());
}
