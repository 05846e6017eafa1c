use felico::compiler::infra::full_name::{Arena, FullName};

fn assert_name(name: &FullName, expected: &str) {
    assert_eq!(name.to_display_string(), expected);
    let short_name = expected.rsplit_once("::").map(|x| x.1).unwrap_or(expected);
    assert_eq!(name.short_name(), short_name);
}

#[test]
fn display_simple_name() {
    let arena = Arena::new();
    let name: FullName = arena.make_full_name("foo");
    assert_name(&name, "foo");
}

#[test]
fn display_complex_name() {
    let arena = Arena::new();
    let root: FullName = arena.make_full_name("foo");
    let child = arena.make_child_name(root, "bar");
    assert_name(&child, "foo::bar");

    let grand_child = arena.make_child_name(child, "baz");
    assert_name(&grand_child, "foo::bar::baz");
}

#[test]
fn equals() {
    fn assert_eq(a: &FullName, b: &FullName) {
        assert!(a == b);
        assert!(b == a);
    }
    fn assert_ne(a: &FullName, b: &FullName) {
        assert!(a != b);
        assert!(b != a);
    }
    let arena = Arena::new();

    let root: FullName = arena.make_full_name("foo");
    let root2: FullName = arena.make_full_name("foo");
    assert_eq(&root, &root);
    assert_eq(&root, &root2);
    assert_eq(&root2, &root);
    let child = arena.make_child_name(root.clone(), "bar");
    let child2 = arena.make_child_name(root2.clone(), "bar");
    let child3 = arena.make_child_name(root.clone(), "bar");

    assert_eq(&child, &child);
    assert_eq(&child, &child2);
    assert_eq(&child, &child3);

    let grand_child = arena.make_child_name(child.clone(), "baz");
    let grand_child2 = arena.make_child_name(child2.clone(), "baz");
    assert_eq(&grand_child, &grand_child2);

    assert_ne(&root, &child);
    assert_ne(&root, &grand_child);
    assert_ne(&child, &grand_child);

    let other_root: FullName = arena.make_full_name("other");
    assert_ne(&root, &other_root);

    let other_child = arena.make_child_name(other_root.clone(), "bar");
    let other_child2 = arena.make_child_name(root.clone(), "other");

    assert_ne(&other_child, &child);
    assert_ne(&other_child2, &child);
    assert_ne(&other_child, &other_child2);
}

#[test]
fn parts_outermost_first() {
    let arena = Arena::new();
    let name = arena.make_child_name(arena.make_child_name(arena.make_full_name("a"), "b"), "c");
    assert_eq!(name.parts(), vec!["a".to_string(), "b".to_string(), "c".to_string()]);
}

#[test]
fn unresolved_name() {
    let arena = Arena::new();
    assert!(FullName::unresolved().is_unresolved());
    assert_eq!(FullName::unresolved().to_display_string(), "<unresolved>");
    assert!(!arena.make_full_name("x").is_unresolved());
    let nested = arena.make_child_name(arena.make_full_name("a"), "<unresolved>");
    assert!(!nested.is_unresolved());
}

#[test]
fn child_display_law() {
    let arena = Arena::new();
    let parent = arena.make_child_name(arena.make_full_name("std"), "io");
    let shown = parent.to_display_string();
    let child = arena.make_child_name(parent, "print");
    assert_eq!(child.to_display_string(), format!("{shown}::print"));
}
