use ctrs::{compose, id, unit};

fn inc(x: i32) -> i32 {
    x + 1
}

fn double(x: i32) -> i32 {
    x * 2
}

fn square(x: i32) -> i32 {
    x * x
}

#[test]
fn id_returns_integer_unchanged() {
    assert_eq!(id(1), 1);
    assert_eq!(id(0), 0);
    assert_eq!(id(-42), -42);
}

#[test]
fn id_returns_string_unchanged() {
    assert_eq!(id("OK"), "OK");
    assert_eq!(id(String::from("hello")), String::from("hello"));
    assert_eq!(id(String::new()), String::new());
}

#[test]
fn compose_identity_on_the_left() {
    let h = compose(id, inc);
    assert_eq!(h(1), inc(1));
    assert_eq!(h(7), inc(7));
    assert_eq!(h(-3), inc(-3));
}

#[test]
fn compose_identity_on_the_right() {
    let h = compose(inc, id);
    assert_eq!(h(1), inc(1));
    assert_eq!(h(7), inc(7));
    assert_eq!(h(-3), inc(-3));
}

#[test]
fn compose_applies_first_then_second() {
    assert_eq!(compose(id, inc)(1), 2);
    assert_eq!(compose(inc, double)(1), 4);
    assert_eq!(compose(double, inc)(1), 3);
}

#[test]
fn compose_order_matters() {
    assert_ne!(compose(inc, double)(1), compose(double, inc)(1));
}

#[test]
fn compose_is_associative_on_concrete_inputs() {
    for a in [-5, 0, 1, 3, 10] {
        let left = compose(compose(inc, double), square);
        let right = compose(inc, compose(double, square));
        assert_eq!(left(a), right(a));
    }
}

#[test]
fn compose_changes_the_value_type() {
    let h = compose(|n: i32| n.to_string(), |s: String| s.len());
    assert_eq!(h(12345), 5);
    assert_eq!(h(-1), 2);
}

#[test]
fn composite_survives_the_constructing_scope() {
    let h = {
        let offset = 10;
        compose(move |x: i32| x + offset, double)
    };
    assert_eq!(h(1), 22);
}

#[test]
fn composite_can_be_invoked_repeatedly() {
    let h = compose(inc, double);
    assert_eq!(h(1), 4);
    assert_eq!(h(1), 4);
    assert_eq!(h(2), 6);
    assert_eq!(h(2), 6);
    assert_eq!(h(1), 4);
}

#[test]
fn unit_discards_any_value() {
    assert_eq!(unit(5), ());
    assert_eq!(unit("anything"), ());
    assert_eq!(unit(String::from("text")), ());
    assert_eq!(unit(()), ());
}

#[test]
fn unit_results_agree_across_types() {
    assert_eq!(unit(5), unit("x"));
    assert_eq!(unit(String::from("a")), unit(0));
}
