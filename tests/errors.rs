use snp::sev::{Command, Error, Indeterminate};
use snp::firmware::types::PlatformStatus;

fn os_error() -> std::io::Error {
    std::io::Error::from_raw_os_error(22)
}

fn kind(code: u32) -> Indeterminate<Error> {
    Indeterminate::<Error>::from_status(code, os_error())
}

#[test]
fn status_zero_is_os_error() {
    match kind(0) {
        Indeterminate::Known(Error::IoError(e)) => assert_eq!(e.raw_os_error(), Some(22)),
        other => panic!("unexpected {:?}", other),
    }
}

#[test]
fn every_published_status_has_its_kind() {
    let expected: [fn(&Error) -> bool; 24] = [
        |e| matches!(e, Error::InvalidPlatformState),
        |e| matches!(e, Error::InvalidGuestState),
        |e| matches!(e, Error::InvalidConfig),
        |e| matches!(e, Error::InvalidLen),
        |e| matches!(e, Error::AlreadyOwned),
        |e| matches!(e, Error::InvalidCertificate),
        |e| matches!(e, Error::PolicyFailure),
        |e| matches!(e, Error::Inactive),
        |e| matches!(e, Error::InvalidAddress),
        |e| matches!(e, Error::BadSignature),
        |e| matches!(e, Error::BadMeasurement),
        |e| matches!(e, Error::AsidOwned),
        |e| matches!(e, Error::InvalidAsid),
        |e| matches!(e, Error::WbinvdRequired),
        |e| matches!(e, Error::DfFlushRequired),
        |e| matches!(e, Error::InvalidGuest),
        |e| matches!(e, Error::InvalidCommand),
        |e| matches!(e, Error::Active),
        |e| matches!(e, Error::HardwarePlatform),
        |e| matches!(e, Error::HardwareUnsafe),
        |e| matches!(e, Error::Unsupported),
        |e| matches!(e, Error::InvalidParam),
        |e| matches!(e, Error::ResourceLimit),
        |e| matches!(e, Error::SecureDataInvalid),
    ];
    for (i, is_kind) in expected.iter().enumerate() {
        let code = i as u32 + 1;
        match kind(code) {
            Indeterminate::Known(e) => assert!(is_kind(&e), "code {} gave {:?}", code, e),
            Indeterminate::Unknown => panic!("code {} not understood", code),
        }
        // The same code gives the same kind again.
        match kind(code) {
            Indeterminate::Known(e) => assert!(is_kind(&e)),
            Indeterminate::Unknown => panic!("code {} not understood", code),
        }
    }
}

#[test]
fn unpublished_status_is_unknown() {
    for code in [0x19u32, 0x20, 255, 0x1000, u32::MAX] {
        assert!(matches!(kind(code), Indeterminate::Unknown), "code {}", code);
    }
}

#[test]
fn encapsulate_reads_the_command_status() {
    let mut info = PlatformStatus::default();
    let mut cmd = Command::from_mut(&mut info);
    assert!(matches!(
        cmd.encapsulate(os_error()),
        Indeterminate::Known(Error::IoError(_))
    ));
    cmd.error = 0x05;
    assert!(matches!(
        cmd.encapsulate(os_error()),
        Indeterminate::Known(Error::AlreadyOwned)
    ));
    cmd.error = 0x99;
    assert!(matches!(cmd.encapsulate(os_error()), Indeterminate::Unknown));
}
