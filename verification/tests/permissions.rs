use mikado::Permissions;

#[test]
fn flag_values() {
    assert_eq!(Permissions::camera().bits(), 0b0000_0001);
    assert_eq!(Permissions::microphone().bits(), 0b0000_0010);
    assert_eq!(Permissions::display().bits(), 0b0000_0100);
    assert_eq!(Permissions::speaker().bits(), 0b0000_1000);
    assert_eq!(Permissions::empty().bits(), 0);
    assert_eq!(Permissions::all().bits(), 0x0F);
    let every = Permissions::camera()
        .union(Permissions::microphone())
        .union(Permissions::display())
        .union(Permissions::speaker());
    assert_eq!(every, Permissions::all());
    assert!(every.is_all());
}

#[test]
fn from_bits_rejects_unknown_bits() {
    assert_eq!(Permissions::from_bits(0b0101), Some(Permissions::camera().union(Permissions::display())));
    assert_eq!(Permissions::from_bits(0x10), None);
    assert_eq!(Permissions::from_bits(0xFF), None);
    assert_eq!(Permissions::from_bits_truncate(0xFF), Permissions::all());
    assert_eq!(Permissions::from_bits_truncate(0x13).bits(), 0x03);
    assert_eq!(Permissions::from_bits_retain(0xF0).bits(), 0xF0);
}

#[test]
fn queries() {
    let p = Permissions::camera().union(Permissions::microphone());
    assert!(p.contains(Permissions::camera()));
    assert!(!p.contains(Permissions::camera().union(Permissions::speaker())));
    assert!(p.intersects(Permissions::camera().union(Permissions::speaker())));
    assert!(!p.intersects(Permissions::display()));
    assert!(!p.is_empty());
    assert!(Permissions::empty().is_empty());
    assert!(!p.is_all());
    assert!(Permissions::from_bits_retain(0xFF).is_all());
}

#[test]
fn insert_remove_toggle_set() {
    let mut p = Permissions::empty();
    p.insert(Permissions::display());
    assert!(p.contains(Permissions::display()));
    p.insert(Permissions::speaker());
    assert_eq!(p.bits(), 0b1100);
    p.remove(Permissions::display());
    assert_eq!(p.bits(), 0b1000);
    assert!(!p.intersects(Permissions::display()));
    p.toggle(Permissions::camera().union(Permissions::speaker()));
    assert_eq!(p.bits(), 0b0001);
    p.toggle(Permissions::camera().union(Permissions::speaker()));
    assert_eq!(p.bits(), 0b1000);
    p.set(Permissions::microphone(), true);
    assert_eq!(p.bits(), 0b1010);
    p.set(Permissions::speaker(), false);
    assert_eq!(p.bits(), 0b0010);
}

#[test]
fn set_operations() {
    let a = Permissions::from_bits_truncate(0b0011);
    let b = Permissions::from_bits_truncate(0b0110);
    assert_eq!(a.union(b).bits(), 0b0111);
    assert_eq!(a.intersection(b).bits(), 0b0010);
    assert_eq!(a.difference(b).bits(), 0b0001);
    assert_eq!(a.symmetric_difference(b).bits(), 0b0101);
    assert_eq!(a.complement().bits(), 0b1100);
    assert_eq!(a.complement().complement(), a);
    assert_eq!(Permissions::from_bits_retain(0xF3).complement().bits(), 0b1100);
    assert_eq!(a.difference(b), a.intersection(b.complement()));
}
