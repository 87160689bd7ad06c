use snp::launch::{PageType, Policy, PolicyFlags, VmplPerms};
use snp::Version;

fn policy(flags: u16, major: u8, minor: u8) -> Policy {
    Policy {
        flags: PolicyFlags::from_bits_retain(flags),
        minfw: Version { major, minor },
    }
}

#[test]
fn policy_smt_exact_word() {
    let p = Policy {
        flags: PolicyFlags::smt(),
        minfw: Version { major: 1, minor: 51 },
    };
    assert_eq!(p.as_u64(), 0x03_01_33);
}

#[test]
fn policy_default_sets_reserved_bit_only() {
    assert_eq!(Policy::default().as_u64(), 0x02_00_00);
}

#[test]
fn policy_reserved_bit_forced_in_flags_field() {
    for flags in [0u16, 1, 2, 4, 8, 0x0d, 0xff, 0xfffd] {
        let w = policy(flags, 0, 0).as_u64();
        assert_eq!((w >> 16) & 0b10, 0b10);
    }
}

#[test]
fn policy_word_bit_one_follows_minor() {
    assert_eq!(policy(0, 0, 2).as_u64() & 0b10, 0b10);
    assert_eq!(policy(0xffff, 9, 0xff).as_u64() & 0b10, 0b10);
    assert_eq!(policy(0xffff, 9, 0).as_u64() & 0b10, 0);
}

#[test]
fn policy_version_bytes() {
    for (major, minor) in [(0u8, 0u8), (1, 51), (255, 255), (7, 0), (0, 200)] {
        let w = policy(0x0d, major, minor).as_u64();
        assert_eq!(w & 0xff, minor as u64);
        assert_eq!((w >> 8) & 0xff, major as u64);
    }
}

#[test]
fn policy_masked_to_24_bits() {
    for flags in [0u16, 0x00ff, 0xff00, 0xffff] {
        let w = policy(flags, 0xff, 0xff).as_u64();
        assert_eq!(w, w & 0x00ff_ffff);
        assert_eq!(w & 0x00ff_ffff, (w & 0x00ff_ffff) & 0x00ff_ffff);
    }
}

#[test]
fn policy_high_flag_bits_dropped_unknown_low_bits_kept() {
    assert_eq!(policy(0xff00, 0, 0).as_u64(), 0x02_00_00);
    assert_eq!(policy(0x00f0, 0, 0).as_u64(), 0xf2_00_00);
    assert_eq!(policy(0xffff, 0xab, 0xcd).as_u64(), 0xff_ab_cd);
}

#[test]
fn policy_flag_constructors() {
    assert_eq!(PolicyFlags::smt().bits(), 1);
    assert_eq!(PolicyFlags::migrate_ma().bits(), 4);
    assert_eq!(PolicyFlags::debug().bits(), 8);
    assert_eq!(PolicyFlags::empty().bits(), 0);
    let all = PolicyFlags::smt()
        .union(PolicyFlags::migrate_ma())
        .union(PolicyFlags::debug());
    assert_eq!(all.bits(), 0b1101);
    assert!(all.contains(PolicyFlags::debug()));
    assert!(!PolicyFlags::smt().contains(PolicyFlags::debug()));
}

#[test]
fn page_type_codes() {
    assert_eq!(PageType::Normal.value(), 1);
    assert_eq!(PageType::Vmsa.value(), 2);
    assert_eq!(PageType::Zero.value(), 3);
    assert_eq!(PageType::Unmeasured.value(), 4);
    assert_eq!(PageType::Secrets.value(), 5);
    assert_eq!(PageType::Cpuid.value(), 6);
}

#[test]
fn vmpl_perm_bits() {
    assert_eq!(VmplPerms::read().bits(), 1);
    assert_eq!(VmplPerms::write().bits(), 2);
    assert_eq!(VmplPerms::execute_user().bits(), 4);
    assert_eq!(VmplPerms::execute_supervisor().bits(), 8);
    assert_eq!(VmplPerms::default().bits(), 0);
    let rw = VmplPerms::read().union(VmplPerms::write());
    assert_eq!(rw.bits(), 3);
    assert!(rw.contains(VmplPerms::write()));
    assert!(!rw.contains(VmplPerms::execute_user()));
    assert_eq!(VmplPerms::from_bits_retain(0xf0).bits(), 0xf0);
    assert_eq!(VmplPerms::empty().bits(), 0);
}
