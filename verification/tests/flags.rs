use mojique::{Config, ConfigPrivateExt, DefaultConfig, Flag};

#[test]
fn flags() {
    // Most behaviour is exercised through the other suites; this checks the
    // flag bitset handling itself.

    let config = DefaultConfig::default();
    assert_eq!(config.flags(), Flag::Error.bits());

    let builder = config.set_flag(Flag::Apple).set_flag(Flag::Check);
    assert_eq!(
        builder.flags(),
        Flag::Error.bits() | Flag::Apple.bits() | Flag::Check.bits()
    );

    let builder = builder.remove_flag(Flag::Error);
    assert_eq!(builder.flags(), Flag::Apple.bits() | Flag::Check.bits());
}

#[test]
fn flag_values_match_engine_header() {
    assert_eq!(Flag::Debug.bits(), 0x1);
    assert_eq!(Flag::Symlink.bits(), 0x2);
    assert_eq!(Flag::Compress.bits(), 0x4);
    assert_eq!(Flag::MimeType.bits(), 0x10);
    assert_eq!(Flag::MimeEncoding.bits(), 0x400);
    assert_eq!(Flag::Mime.bits(), Flag::MimeType.bits() | Flag::MimeEncoding.bits());
    assert_eq!(Flag::Error.bits(), 0x200);
    assert_eq!(Flag::Extension.bits(), 0x100_0000);
    assert_eq!(Flag::CompressTransparent.bits(), 0x200_0000);
}

#[test]
fn flag_application_is_order_independent() {
    // Setting two flags in either order yields the same bitset, setting a
    // flag twice is the same as setting it once, and removing a disjoint
    // flag commutes with setting another.
    let a = DefaultConfig::default()
        .set_flag(Flag::Apple)
        .set_flag(Flag::Check);
    let b = DefaultConfig::default()
        .set_flag(Flag::Check)
        .set_flag(Flag::Apple);
    assert_eq!(a.flags(), b.flags());

    let twice = DefaultConfig::default()
        .set_flag(Flag::Apple)
        .set_flag(Flag::Apple);
    let once = DefaultConfig::default().set_flag(Flag::Apple);
    assert_eq!(twice.flags(), once.flags());

    let set_then_remove = DefaultConfig::default()
        .set_flag(Flag::Apple)
        .remove_flag(Flag::Error);
    let remove_then_set = DefaultConfig::default()
        .remove_flag(Flag::Error)
        .set_flag(Flag::Apple);
    assert_eq!(set_then_remove.flags(), remove_then_set.flags());

    let remove_twice = set_then_remove.clone().remove_flag(Flag::Error);
    assert_eq!(remove_twice.flags(), set_then_remove.flags());
}
