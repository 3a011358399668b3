use serenity_model::permissions::Permissions;
use serenity_model::permissions::ADMINISTRATOR;
use serenity_model::permissions::ALL_BITS;
use serenity_model::permissions::KICK_MEMBERS;
use serenity_model::permissions::READ_MESSAGES;
use serenity_model::permissions::SEND_MESSAGES;

fn mask(bits: u64) -> Permissions {
    Permissions::from_bits(bits).unwrap()
}

#[test]
fn empty_and_all() {
    assert_eq!(Permissions::empty().bits(), 0);
    assert_eq!(Permissions::all().bits(), 0x7ff7_fcff);
    assert_eq!(ALL_BITS, 0x7ff7_fcff);
    assert!(Permissions::empty().is_empty());
    assert!(Permissions::all().is_all());
    assert!(!Permissions::all().is_empty());
    assert!(!mask(READ_MESSAGES).is_all());
}

#[test]
fn from_bits_rejects_undefined_flags() {
    assert_eq!(Permissions::from_bits(0x100), None);
    assert_eq!(Permissions::from_bits(0x8000_0000), None);
    assert_eq!(Permissions::from_bits(1 << 40), None);
    assert_eq!(Permissions::from_bits(READ_MESSAGES).map(|p| p.bits()), Some(0x400));
    assert_eq!(Permissions::from_bits(ALL_BITS), Some(Permissions::all()));
}

#[test]
fn from_bits_truncate_keeps_defined_flags() {
    assert_eq!(Permissions::from_bits_truncate(0x108).bits(), 0x8);
    assert_eq!(Permissions::from_bits_truncate(u64::MAX), Permissions::all());
    assert_eq!(Permissions::from_bits_truncate(ADMINISTRATOR).bits(), ADMINISTRATOR);
}

#[test]
fn union_intersection_difference() {
    let a = mask(READ_MESSAGES | SEND_MESSAGES);
    let b = mask(SEND_MESSAGES | KICK_MEMBERS);
    assert_eq!(a.union(b).bits(), READ_MESSAGES | SEND_MESSAGES | KICK_MEMBERS);
    assert_eq!(a.intersect(b).bits(), SEND_MESSAGES);
    assert_eq!(a.subtract(b).bits(), READ_MESSAGES);
    assert_eq!((a | b).bits(), READ_MESSAGES | SEND_MESSAGES | KICK_MEMBERS);
    assert_eq!((a & b).bits(), SEND_MESSAGES);
    assert_eq!((a - b).bits(), READ_MESSAGES);
    assert_eq!((a & !b).bits(), READ_MESSAGES);
}

#[test]
fn complement_stays_within_the_defined_flags() {
    assert_eq!(Permissions::empty().complement(), Permissions::all());
    assert_eq!((!Permissions::all()).bits(), 0);
    assert_eq!(mask(READ_MESSAGES).complement().bits(), ALL_BITS & !READ_MESSAGES);
}

#[test]
fn contains_and_intersects() {
    let a = mask(READ_MESSAGES | SEND_MESSAGES);
    assert!(a.contains(mask(READ_MESSAGES)));
    assert!(a.contains(Permissions::empty()));
    assert!(!a.contains(mask(READ_MESSAGES | KICK_MEMBERS)));
    assert!(a.intersects(mask(READ_MESSAGES | KICK_MEMBERS)));
    assert!(!a.intersects(mask(KICK_MEMBERS)));
}

#[test]
fn insert_and_remove() {
    let mut a = mask(READ_MESSAGES);
    a.insert(mask(SEND_MESSAGES));
    assert_eq!(a.bits(), READ_MESSAGES | SEND_MESSAGES);
    a.remove(mask(READ_MESSAGES | KICK_MEMBERS));
    assert_eq!(a.bits(), SEND_MESSAGES);
}
