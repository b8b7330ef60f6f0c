use nix::mount::MsFlags;
use nsbox::flags::{bind_mount, plain_mount, MS_BIND, MS_PRIVATE, MS_REC};

#[test]
fn bind_mount_is_recursive_and_private() {
    assert_eq!(
        bind_mount(),
        MsFlags::MS_BIND | MsFlags::MS_REC | MsFlags::MS_PRIVATE
    );
    assert_eq!(bind_mount().bits(), 0x45000);
}

#[test]
fn bind_mount_holds_each_of_its_flags() {
    let flags = bind_mount();
    assert!(flags.contains(MsFlags::MS_BIND));
    assert!(flags.contains(MsFlags::MS_REC));
    assert!(flags.contains(MsFlags::MS_PRIVATE));
    assert!(!flags.contains(MsFlags::MS_RDONLY));
}

#[test]
fn plain_mount_has_no_flags() {
    assert_eq!(plain_mount(), MsFlags::empty());
    assert_eq!(plain_mount().bits(), 0);
}

#[test]
fn flag_bits_are_those_of_the_kernel() {
    assert_eq!(MsFlags::MS_BIND.bits() as u64, MS_BIND);
    assert_eq!(MsFlags::MS_REC.bits() as u64, MS_REC);
    assert_eq!(MsFlags::MS_PRIVATE.bits() as u64, MS_PRIVATE);
}
