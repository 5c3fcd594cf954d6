use std::cell::RefCell;
use std::rc::Rc;

use installer_lite::fsmodel::FsState;
use installer_lite::phase::{InstallError, InstallPhase};
use installer_lite::wizard::{FrameInput, InstallHook, Installer, NoHook};

/// A hook that counts its invocations and reports a fixed text.
struct CountHook {
    calls: Rc<RefCell<u32>>,
    text: &'static str,
}

impl InstallHook for CountHook {
    fn run(&self) -> String {
        *self.calls.borrow_mut() += 1;
        self.text.to_string()
    }
}

fn quiet_frame() -> FrameInput {
    FrameInput {
        edited_path: None,
        picked_directory: None,
        cancel_clicked: false,
        proceed_clicked: false,
    }
}

fn proceed_frame() -> FrameInput {
    FrameInput {
        edited_path: None,
        picked_directory: None,
        cancel_clicked: false,
        proceed_clicked: true,
    }
}

const PAYLOAD: [u8; 10] = [0x4D, 0x5A, 0x00, 0x01, 0x02, 0x03, 0x04, 0x05, 0x06, 0x07];

fn demo_wizard() -> Installer<NoHook> {
    Installer::new(&PAYLOAD, Some("/tmp/nonexistent_dir".to_string()), "demo".to_string())
}

#[test]
fn install_path_formula() {
    let w = demo_wizard();
    assert_eq!(w.install_path(), "/tmp/nonexistent_dir/demo.exe");
}

#[test]
fn default_destination_when_none_chosen() {
    let w: Installer<NoHook> = Installer::new(&PAYLOAD, None, "demo".to_string());
    assert_eq!(w.destination(), "C:\\Program Files (x86)");
}

#[test]
fn fresh_install_places_payload_byte_for_byte() {
    let mut fs = FsState::new();
    let mut w = demo_wizard();
    let r = w.install(&mut fs);
    assert!(r.is_ok());
    let got = fs.read(&"/tmp/nonexistent_dir/demo.exe".to_string());
    assert_eq!(got.unwrap().as_slice(), &PAYLOAD);
    assert_eq!(
        w.log_text(),
        "\nCreating App folder: \n/tmp/nonexistent_dir\nCopying executable to folder"
    );
}

#[test]
fn install_on_existing_target_fails_and_writes_nothing() {
    let mut fs = FsState::new();
    let target = "/tmp/nonexistent_dir/demo.exe".to_string();
    fs.write(&target, vec![9, 9, 9]).unwrap();
    let mut w = demo_wizard();
    let r = w.install(&mut fs);
    assert_eq!(r.unwrap_err(), InstallError::AlreadyInstalled);
    assert_eq!(fs.read(&target).unwrap().as_slice(), &[9, 9, 9]);
    assert_eq!(w.log_text(), "");
}

#[test]
fn denied_directory_gives_io_failure() {
    let mut fs = FsState::new();
    fs.deny(&"/tmp/nonexistent_dir".to_string());
    let mut w = demo_wizard();
    let r = w.install(&mut fs);
    match r.unwrap_err() {
        InstallError::IoFailure(m) => assert_eq!(m, "permission denied"),
        e => panic!("expected IoFailure, got {:?}", e),
    }
    assert!(fs.read(&"/tmp/nonexistent_dir/demo.exe".to_string()).is_none());
}

#[test]
fn denied_target_file_gives_io_failure_after_dir_creation() {
    let mut fs = FsState::new();
    fs.deny(&"/tmp/nonexistent_dir/demo.exe".to_string());
    let mut w = demo_wizard();
    let r = w.install(&mut fs);
    match r.unwrap_err() {
        InstallError::IoFailure(m) => assert_eq!(m, "permission denied"),
        e => panic!("expected IoFailure, got {:?}", e),
    }
    // no rollback: the directory-creation log line stays
    assert_eq!(w.log_text(), "\nCreating App folder: \n/tmp/nonexistent_dir");
}

#[test]
fn entry_twice_writes_only_once() {
    let mut fs = FsState::new();
    let pre_calls = Rc::new(RefCell::new(0u32));
    let post_calls = Rc::new(RefCell::new(0u32));
    let mut w: Installer<CountHook> =
        Installer::new(&PAYLOAD, Some("/tmp/nonexistent_dir".to_string()), "demo".to_string());
    w.add_pre_install_function(CountHook { calls: pre_calls.clone(), text: "[pre]" });
    w.add_post_install_function(CountHook { calls: post_calls.clone(), text: "[post]" });
    w.proceed(); // Start -> Installation
    w.enter_installation(&mut fs);
    w.enter_installation(&mut fs);
    assert_eq!(*pre_calls.borrow(), 1);
    assert_eq!(*post_calls.borrow(), 1);
    let got = fs.read(&"/tmp/nonexistent_dir/demo.exe".to_string());
    assert_eq!(got.unwrap().as_slice(), &PAYLOAD);
    assert_eq!(
        w.log_text(),
        "[pre]\nCreating App folder: \n/tmp/nonexistent_dir\nCopying executable to folder[post]"
    );
    assert!(!w.has_pre_install_function());
    assert!(!w.has_post_install_function());
}

#[test]
fn post_hook_never_runs_when_install_fails() {
    let mut fs = FsState::new();
    fs.write(&"/tmp/nonexistent_dir/demo.exe".to_string(), vec![1]).unwrap();
    let pre_calls = Rc::new(RefCell::new(0u32));
    let post_calls = Rc::new(RefCell::new(0u32));
    let mut w: Installer<CountHook> =
        Installer::new(&PAYLOAD, Some("/tmp/nonexistent_dir".to_string()), "demo".to_string());
    w.add_pre_install_function(CountHook { calls: pre_calls.clone(), text: "[pre]" });
    w.add_post_install_function(CountHook { calls: post_calls.clone(), text: "[post]" });
    w.proceed();
    w.enter_installation(&mut fs);
    assert_eq!(*pre_calls.borrow(), 1);
    assert_eq!(*post_calls.borrow(), 0);
    assert!(w.has_post_install_function());
    match w.current_phase() {
        InstallPhase::Error(e) => assert_eq!(e.detail(), "App already installed"),
        p => panic!("expected Error phase, got {:?}", p),
    }
}

#[test]
fn phase_machine_follows_the_linear_order() {
    let mut p = InstallPhase::Start;
    p.next();
    assert_eq!(p, InstallPhase::Installation);
    p.next();
    assert_eq!(p, InstallPhase::Success);
    p.next();
    assert_eq!(p, InstallPhase::Finish);
    let mut e = InstallPhase::Error(InstallError::AlreadyInstalled);
    e.next();
    assert_eq!(e, InstallPhase::Finish);
}

#[test]
fn success_scenario_through_frames() {
    let mut fs = FsState::new();
    let mut w = demo_wizard();
    let out = w.update(&mut fs, proceed_frame());
    assert!(!out.close_requested);
    assert_eq!(out.proceed_label, "Install");
    assert_eq!(out.body, "Installation directory: ");
    assert_eq!(w.current_phase(), &InstallPhase::Installation);

    let out = w.update(&mut fs, quiet_frame());
    assert_eq!(out.proceed_label, "Next");
    assert_eq!(w.current_phase(), &InstallPhase::Installation);
    let got = fs.read(&"/tmp/nonexistent_dir/demo.exe".to_string());
    assert_eq!(got.unwrap().as_slice(), &PAYLOAD);
    assert_eq!(
        out.body,
        "\nCreating App folder: \n/tmp/nonexistent_dir\nCopying executable to folder"
    );

    let out = w.update(&mut fs, proceed_frame());
    assert_eq!(w.current_phase(), &InstallPhase::Success);
    assert_eq!(out.proceed_label, "Next");

    let out = w.update(&mut fs, proceed_frame());
    assert_eq!(w.current_phase(), &InstallPhase::Finish);
    assert_eq!(
        out.body,
        "Program Installed, click \"Finish\" to close the installer."
    );
    assert_eq!(out.proceed_label, "Finish");

    let out = w.update(&mut fs, quiet_frame());
    assert!(out.close_requested);
}

#[test]
fn single_proceed_after_entry_reaches_success() {
    // entering Installation and proceeding once lands on Success
    let mut fs = FsState::new();
    let mut w = demo_wizard();
    let _ = w.update(&mut fs, proceed_frame()); // Start -> Installation
    let _ = w.update(&mut fs, proceed_frame()); // entry runs, then -> Success
    assert_eq!(w.current_phase(), &InstallPhase::Success);
    let got = fs.read(&"/tmp/nonexistent_dir/demo.exe".to_string());
    assert_eq!(got.unwrap().as_slice(), &PAYLOAD);
}

#[test]
fn preexisting_target_scenario_through_frames() {
    let mut fs = FsState::new();
    let target = "/tmp/nonexistent_dir/demo.exe".to_string();
    fs.write(&target, vec![0xFF, 0xEE]).unwrap();
    let mut w = demo_wizard();
    let _ = w.update(&mut fs, proceed_frame());
    let out = w.update(&mut fs, quiet_frame());
    match w.current_phase() {
        InstallPhase::Error(e) => {
            assert!(e.is_already_installed());
            assert!(e.detail().to_lowercase().contains("already installed"));
        },
        p => panic!("expected Error phase, got {:?}", p),
    }
    assert_eq!(fs.read(&target).unwrap().as_slice(), &[0xFF, 0xEE]);
    assert_eq!(out.proceed_label, "Finish");
    let _ = w.update(&mut fs, proceed_frame());
    assert_eq!(w.current_phase(), &InstallPhase::Finish);
}

#[test]
fn cancel_forces_finish_from_any_phase() {
    let mut fs = FsState::new();
    let mut w = demo_wizard();
    let cancel = FrameInput {
        edited_path: None,
        picked_directory: None,
        cancel_clicked: true,
        proceed_clicked: false,
    };
    let out = w.update(&mut fs, cancel);
    assert_eq!(w.current_phase(), &InstallPhase::Finish);
    assert_eq!(out.proceed_label, "Finish");
    let out = w.update(&mut fs, quiet_frame());
    assert!(out.close_requested);
    // nothing was written
    assert!(fs.read(&"/tmp/nonexistent_dir/demo.exe".to_string()).is_none());
}

#[test]
fn start_frame_edits_replace_destination() {
    let mut fs = FsState::new();
    let mut w = demo_wizard();
    let edit = FrameInput {
        edited_path: Some("/opt/elsewhere".to_string()),
        picked_directory: None,
        cancel_clicked: false,
        proceed_clicked: false,
    };
    let _ = w.update(&mut fs, edit);
    assert_eq!(w.destination(), "/opt/elsewhere");
    // the folder picker wins over a simultaneous edit
    let both = FrameInput {
        edited_path: Some("/opt/typed".to_string()),
        picked_directory: Some("/opt/picked".to_string()),
        cancel_clicked: false,
        proceed_clicked: false,
    };
    let _ = w.update(&mut fs, both);
    assert_eq!(w.destination(), "/opt/picked");
}

#[test]
fn heading_and_error_body() {
    let mut fs = FsState::new();
    fs.deny(&"/tmp/nonexistent_dir".to_string());
    let mut w = demo_wizard();
    let out = w.update(&mut fs, quiet_frame());
    assert_eq!(out.heading, "demo, Installer");
    w.proceed();
    let _ = w.update(&mut fs, quiet_frame());
    let out = w.update(&mut fs, quiet_frame());
    assert_eq!(
        out.body,
        "Something went wrong during the installation... Click \"Finish\" to close the installer.permission denied"
    );
}

#[test]
fn model_write_read_roundtrip_and_overwrite() {
    let mut fs = FsState::new();
    let a = "/a/x".to_string();
    let b = "/a/y".to_string();
    assert!(!fs.file_exists(&a));
    fs.write(&a, vec![1, 2, 3]).unwrap();
    fs.write(&b, vec![4]).unwrap();
    assert!(fs.file_exists(&a));
    assert_eq!(fs.read(&a).unwrap().as_slice(), &[1, 2, 3]);
    fs.write(&a, vec![7, 8]).unwrap();
    assert_eq!(fs.read(&a).unwrap().as_slice(), &[7, 8]);
    assert_eq!(fs.read(&b).unwrap().as_slice(), &[4]);
}

#[test]
fn model_denied_path_refuses_mutation() {
    let mut fs = FsState::new();
    let p = "/locked".to_string();
    fs.deny(&p);
    assert_eq!(fs.write(&p, vec![1]).unwrap_err(), "permission denied");
    assert_eq!(fs.create_dir_all(&p).unwrap_err(), "permission denied");
    assert!(!fs.file_exists(&p));
}
