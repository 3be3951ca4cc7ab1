use named_semaphore::flags::{OpenMode, OpenOptions};
use std::collections::HashSet;

#[test]
fn options_union_by_operator_and_method() {
    let a = OpenOptions::create() | OpenOptions::read() | OpenOptions::write();
    let b = OpenOptions::create().union(OpenOptions::read()).union(OpenOptions::write());
    assert_eq!(a, b);
    assert_eq!(a, OpenOptions::all());
    assert_eq!(a, OpenOptions { create: true, read: true, write: true });
}

#[test]
fn options_named_constants_are_single_bits() {
    assert_eq!(OpenOptions::create(), OpenOptions { create: true, read: false, write: false });
    assert_eq!(OpenOptions::read(), OpenOptions { create: false, read: true, write: false });
    assert_eq!(OpenOptions::write(), OpenOptions { create: false, read: false, write: true });
    assert!(OpenOptions::empty().is_empty());
    assert!(!OpenOptions::read().is_empty());
}

#[test]
fn options_contains() {
    let rw = OpenOptions::read() | OpenOptions::write();
    assert!(rw.contains(OpenOptions::read()));
    assert!(rw.contains(OpenOptions::write()));
    assert!(!rw.contains(OpenOptions::create()));
    assert!(rw.contains(OpenOptions::empty()));
    assert!(!OpenOptions::empty().contains(rw));
}

#[test]
fn options_union_is_idempotent_and_commutative() {
    let c = OpenOptions::create();
    let w = OpenOptions::write();
    assert_eq!(c | c, c);
    assert_eq!(c | w, w | c);
    assert_eq!(c | OpenOptions::empty(), c);
}

#[test]
fn mode_union_of_owner_bits() {
    let m = OpenMode::r_usr() | OpenMode::w_usr();
    assert!(m.r_usr && m.w_usr);
    assert!(!m.r_grp && !m.w_grp && !m.r_oth && !m.w_oth);
    assert_eq!(m, OpenMode::r_usr().union(OpenMode::w_usr()));
}

#[test]
fn mode_all_is_union_of_every_bit() {
    let m = OpenMode::r_usr()
        | OpenMode::w_usr()
        | OpenMode::r_grp()
        | OpenMode::w_grp()
        | OpenMode::r_oth()
        | OpenMode::w_oth();
    assert_eq!(m, OpenMode::all());
    assert!(OpenMode::empty().is_empty());
    assert!(!OpenMode::w_oth().is_empty());
}

#[test]
fn mode_contains() {
    let m = OpenMode::r_grp() | OpenMode::w_oth();
    assert!(m.contains(OpenMode::r_grp()));
    assert!(m.contains(OpenMode::w_oth()));
    assert!(!m.contains(OpenMode::r_oth()));
    assert!(!m.contains(OpenMode::r_grp() | OpenMode::w_grp()));
    assert!(OpenMode::all().contains(m));
}

#[test]
fn flags_serve_as_keys_and_are_ordered() {
    let mut seen = HashSet::new();
    seen.insert(OpenOptions::create() | OpenOptions::read());
    seen.insert(OpenOptions::read() | OpenOptions::create());
    seen.insert(OpenOptions::write());
    assert_eq!(seen.len(), 2);
    let mut modes = HashSet::new();
    modes.insert(OpenMode::r_usr());
    modes.insert(OpenMode::r_usr());
    assert_eq!(modes.len(), 1);
    assert!(OpenOptions::empty() < OpenOptions::write());
    assert!(OpenMode::empty() < OpenMode::w_oth());
}
