//! Checks of the guard algebra and of the text primitives.

use rudderc::cfengine::{canonify, canonify_condition, escape, expanded, quoted};
use rudderc::condition::Condition;

#[test]
fn guard_algebra_always_is_identity() {
    let x = Condition::Expression("os.linux".to_string());
    assert_eq!(Condition::Defined.and(&x), x);
    assert_eq!(x.and(&Condition::Defined), x);
    assert_eq!(Condition::Defined.and(&Condition::Defined), Condition::Defined);
}

#[test]
fn guard_algebra_never_absorbs() {
    let x = Condition::Expression("os.linux".to_string());
    assert_eq!(Condition::NotDefined.and(&x), Condition::NotDefined);
    assert_eq!(x.and(&Condition::NotDefined), Condition::NotDefined);
    assert_eq!(Condition::NotDefined.and(&Condition::Defined), Condition::NotDefined);
}

#[test]
fn guard_algebra_conjoins_expressions() {
    let a = Condition::Expression("os.linux".to_string());
    let b = Condition::Expression("pkg.present".to_string());
    assert_eq!(a.and(&b), Condition::Expression("(os.linux).(pkg.present)".to_string()));
}

#[test]
fn guard_rendering() {
    assert_eq!(Condition::Defined.render(), "any");
    assert_eq!(Condition::NotDefined.render(), "!any");
    assert_eq!(Condition::Expression("os.linux".to_string()).render(), "os.linux");
}

#[test]
fn escape_backslash_and_quote() {
    assert_eq!(escape("plain"), "plain");
    assert_eq!(escape("a\"b"), "a\\\"b");
    assert_eq!(escape("a\\b"), "a\\\\b");
    assert_eq!(escape(""), "");
}

#[test]
fn quoting_and_expansion() {
    assert_eq!(quoted("x"), "\"x\"");
    assert_eq!(expanded("c_name"), "${c_name}");
}

#[test]
fn canonify_maps_to_identifier() {
    assert_eq!(canonify("pkg_install"), "pkg_install");
    assert_eq!(canonify("pkg install!"), "pkg_install_");
    assert_eq!(canonify("a-b.c"), "a_b_c");
    assert_eq!(canonify(canonify("a-b.c").as_str()), "a_b_c");
}

#[test]
fn guard_expression_compilation() {
    assert_eq!(canonify_condition("os.linux"), "\"any.(os.linux)\"");
    assert_eq!(canonify_condition("a\"b"), "\"any.(a\\\"b)\"");
}
