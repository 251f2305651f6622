use rustbook::shapes::Rectangle;
use rustbook::words::greeting;

#[test]
fn it_works() {
    let result = 2 + 2;
    assert_eq!(result, 4);
}

#[test]
fn it_works_ne() {
    let result = 2 + 2;
    assert_ne!(result, 5);
}

#[test]
fn exploration() {
    assert_eq!(2 + 2, 4);
}

#[test]
fn larger_can_hold_smaller() {
    let larger = Rectangle { width: 8, height: 7 };
    let smaller = Rectangle { width: 5, height: 1 };

    assert!(larger.can_hold(&smaller));
}

#[test]
fn smaller_cannot_hold_larger() {
    let larger = Rectangle { width: 8, height: 7 };
    let smaller = Rectangle { width: 5, height: 1 };

    assert!(!smaller.can_hold(&larger));
}

#[test]
fn greeting_contains_name() {
    let result = greeting("Carol");
    assert!(
        result.contains("Carol"),
        "Greeting did not contain name, value was `{}`",
        result
    );
}

#[test]
fn it_works_result() -> Result<(), String> {
    if 2 + 2 == 4 {
        Ok(())
    } else {
        Err(String::from("two plus two does not equal four"))
    }
}

#[test]
fn greeting_is_exact() {
    assert_eq!(greeting("Carol"), "Hello Carol!");
    assert_eq!(greeting(""), "Hello !");
}

#[test]
fn equal_rectangles_do_not_hold_each_other() {
    let a = Rectangle { width: 5, height: 5 };
    assert!(!a.can_hold(&a));
    let wide = Rectangle { width: 9, height: 1 };
    let tall = Rectangle { width: 1, height: 9 };
    assert!(!wide.can_hold(&tall));
    assert!(!tall.can_hold(&wide));
}
