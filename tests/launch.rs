use snp::kvm::types::{Init, LaunchFinish, LaunchStart, LaunchUpdate};
use snp::kvm::Command;
use snp::launch::launcher::Launcher;
use snp::launch::{Finish, PageType, Policy, PolicyFlags, Start, Update, VmplPerms};
use snp::sev::{Encode, Payload};
use snp::Version;

fn failed() -> std::io::Error {
    std::io::Error::from_raw_os_error(16)
}

fn update(page_type: PageType) -> Update {
    Update {
        imi_page: false,
        page_type,
        vmpl3_perms: VmplPerms::default(),
        vmpl2_perms: VmplPerms::default(),
        vmpl1_perms: VmplPerms::default(),
    }
}

#[test]
fn launch_sequence_end_to_end() {
    let sev_fd = 7u32;
    let init = Init::default();
    let init_cmd = Launcher::init_command(sev_fd, &init);
    assert_eq!(init_cmd.code, 256);
    assert_eq!(init_cmd.sev_fd, sev_fd);
    assert_eq!(init.to_bytes(), vec![0u8; 8]);

    let launcher = Launcher::new(sev_fd, Ok(0)).unwrap();
    assert_eq!(launcher.sev_fd(), sev_fd);

    let start = Start {
        policy: Policy {
            flags: PolicyFlags::smt(),
            minfw: Version { major: 1, minor: 51 },
        },
        ma_uaddr: 0,
        ma_en: false,
        imi_en: false,
        gosvw: [0; 16],
    };
    let mut launch_start = LaunchStart::new(&start);
    assert_eq!(launch_start.policy, 0x03_01_33);
    {
        let cmd = launcher.start_command(&mut launch_start);
        assert_eq!(cmd.code, 257);
        assert_eq!(cmd.sev_fd, sev_fd);
        assert!(matches!(cmd.data, Payload::Exclusive(_)));
    }
    let mut launcher = launcher.start(Ok(0)).unwrap();

    let first = [0xaau8; 16];
    let second = [0x55u8; 32];
    let normal = LaunchUpdate::new(&first, &update(PageType::Normal));
    let secrets = LaunchUpdate::new(&second, &update(PageType::Secrets));
    {
        let a = launcher.update_command(&normal);
        let b = launcher.update_command(&secrets);
        assert_eq!(a.code, 258);
        assert_eq!(b.code, 258);
        assert_eq!(a.sev_fd, sev_fd);
        assert!(matches!(a.data, Payload::Shared(_)));
    }
    assert_eq!(normal.len, 16);
    assert_eq!(secrets.len, 32);
    assert_eq!(normal.page_type, 1);
    assert_eq!(secrets.page_type, 5);
    assert_eq!(normal.uaddr, first.as_ptr() as u64);
    assert_eq!(secrets.uaddr, second.as_ptr() as u64);
    assert!(launcher.update_data(Ok(0)).is_ok());
    assert!(launcher.update_data(Ok(0)).is_ok());

    let finish = Finish::default();
    let launch_finish = LaunchFinish::new(&finish);
    assert_eq!(launcher.finish_command(&launch_finish).code, 259);
    let done = launcher.finish(Ok(0)).unwrap();
    assert_eq!(done.sev_fd(), sev_fd);
}

#[test]
fn failed_steps_stop_the_launch() {
    let err = Launcher::new(3, Err(failed())).err().unwrap();
    assert_eq!(err.raw_os_error(), Some(16));

    let launcher = Launcher::new(3, Ok(0)).unwrap();
    let err = launcher.start(Err(failed())).err().unwrap();
    assert_eq!(err.raw_os_error(), Some(16));

    let mut started = Launcher::new(3, Ok(0)).unwrap().start(Ok(0)).unwrap();
    let err = started.update_data(Err(failed())).unwrap_err();
    assert_eq!(err.raw_os_error(), Some(16));
    assert!(started.finish(Err(failed())).is_err());
}

#[test]
fn guest_command_record_layout() {
    let init = Init::default();
    let mut cmd = Command::from(9, &init);
    let rec = cmd.to_bytes(0x1122_3344_5566_7788);
    assert_eq!(
        rec,
        vec![
            0, 1, 0, 0, 0, 0, 0, 0, 0x88, 0x77, 0x66, 0x55, 0x44, 0x33, 0x22, 0x11, 0, 0, 0, 0,
            9, 0, 0, 0
        ]
    );
    let mut back = rec.clone();
    back[16] = 0x12;
    cmd.record_status(&back);
    assert_eq!(cmd.error, 0x12);
    assert_eq!(cmd.sev_fd, 9);
    assert_eq!(cmd.code, 256);
}

#[test]
fn guest_command_codes_both_entry_points() {
    let start = Start::default();
    let mut ls = LaunchStart::new(&start);
    assert_eq!(Command::from(1, &ls).code, 257);
    assert_eq!(Command::from_mut(1, &mut ls).code, 257);
    let data = [0u8; 4];
    let mut lu = LaunchUpdate::new(&data, &update(PageType::Zero));
    assert_eq!(Command::from(1, &lu).code, 258);
    assert_eq!(Command::from_mut(1, &mut lu).code, 258);
    let finish = Finish::default();
    let mut lf = LaunchFinish::new(&finish);
    assert_eq!(Command::from(1, &lf).code, 259);
    assert_eq!(Command::from_mut(1, &mut lf).code, 259);
    let mut init = Init::default();
    assert_eq!(Command::from_mut(1, &mut init).code, 256);
}

#[test]
fn launch_start_layout() {
    let mut gosvw = [0u8; 16];
    gosvw[0] = 0xee;
    gosvw[15] = 0xff;
    let start = Start {
        policy: Policy {
            flags: PolicyFlags::debug(),
            minfw: Version { major: 2, minor: 3 },
        },
        ma_uaddr: 0x0102,
        ma_en: true,
        imi_en: false,
        gosvw,
    };
    let ls = LaunchStart::new(&start);
    assert_eq!(ls.policy, 0x0a_02_03);
    assert_eq!(ls.ma_en, 1);
    assert_eq!(ls.imi_en, 0);
    let bytes = ls.to_bytes();
    assert_eq!(bytes.len(), 40);
    assert_eq!(&bytes[0..8], &[3, 2, 0x0a, 0, 0, 0, 0, 0]);
    assert_eq!(&bytes[8..16], &[2, 1, 0, 0, 0, 0, 0, 0]);
    assert_eq!(&bytes[16..18], &[1, 0]);
    assert_eq!(&bytes[18..34], &gosvw);
    assert_eq!(&bytes[34..40], &[0; 6]);
}

#[test]
fn launch_update_layout() {
    let data = [1u8, 2, 3];
    let u = Update {
        imi_page: true,
        page_type: PageType::Cpuid,
        vmpl3_perms: VmplPerms::read(),
        vmpl2_perms: VmplPerms::read().union(VmplPerms::write()),
        vmpl1_perms: VmplPerms::execute_supervisor(),
    };
    let lu = LaunchUpdate::new(&data, &u);
    assert_eq!(lu.len, 3);
    assert_eq!(lu.imi_page, 1);
    assert_eq!(lu.page_type, 6);
    assert_eq!((lu.vmpl3_perms, lu.vmpl2_perms, lu.vmpl1_perms), (1, 3, 8));
    let bytes = lu.to_bytes();
    assert_eq!(bytes.len(), 24);
    assert_eq!(&bytes[0..8], &(data.as_ptr() as u64).to_le_bytes());
    assert_eq!(&bytes[8..24], &[3, 0, 0, 0, 1, 6, 1, 3, 8, 0, 0, 0, 0, 0, 0, 0]);
}

#[test]
fn empty_update_buffer_has_zero_length() {
    let data: [u8; 0] = [];
    let lu = LaunchUpdate::new(&data, &update(PageType::Normal));
    assert_eq!(lu.len, 0);
}

#[test]
fn launch_finish_layout() {
    let mut host_data = [0u8; 32];
    host_data[31] = 0x77;
    let finish = Finish {
        id_block_uaddr: 0x10,
        id_auth_uaddr: 0x20,
        id_block_en: true,
        auth_key_en: true,
        host_data,
    };
    let lf = LaunchFinish::new(&finish);
    let bytes = lf.to_bytes();
    assert_eq!(bytes.len(), 56);
    assert_eq!(&bytes[0..8], &[0x10, 0, 0, 0, 0, 0, 0, 0]);
    assert_eq!(&bytes[8..16], &[0x20, 0, 0, 0, 0, 0, 0, 0]);
    assert_eq!(&bytes[16..18], &[1, 1]);
    assert_eq!(&bytes[18..50], &host_data);
    assert_eq!(&bytes[50..56], &[0; 6]);
}
