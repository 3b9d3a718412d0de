use zapret_rust::services::{
    command_outcome, control_step, detect_init_system, get_detected_manager, get_manager, install_steps,
    installed_path, is_active_from, service_file_text, status_step, uninstall_steps, AnyManager, Control,
    InitProbes, InitType, ServiceHost, ServiceManager, Step,
};

fn no_probes() -> InitProbes {
    InitProbes {
        run_systemd_system: false,
        run_openrc: false,
        sbin_openrc_run: false,
        etc_dinit_d: false,
        has_dinitctl: false,
        etc_runit: false,
        var_service: false,
        has_sv: false,
        etc_s6: false,
        has_s6_svstat: false,
        etc_init_d: false,
    }
}

fn host() -> ServiceHost {
    ServiceHost { service_dir: false, var_service_dir: true, has_update_rc_d: true, has_chkconfig: false }
}

fn written_paths(steps: &[Step]) -> Vec<String> {
    let mut v = Vec::new();
    for s in steps {
        match s {
            Step::WriteFile { path, .. } => v.push(path.clone()),
            Step::Symlink { link, .. } => v.push(link.clone()),
            _ => {}
        }
    }
    v
}

fn removes(steps: &[Step], p: &str) -> bool {
    steps.iter().any(|s| match s {
        Step::RemoveFile { path, .. } => path == p,
        Step::RemoveDir { path } => path == p || p.starts_with(&format!("{}/", path)),
        _ => false,
    })
}

#[test]
fn init_names() {
    assert_eq!(InitType::Systemd.as_str(), "systemd");
    assert_eq!(InitType::OpenRc.as_str(), "openrc");
    assert_eq!(InitType::Runit.as_str(), "runit");
    assert_eq!(InitType::Dinit.as_str(), "dinit");
    assert_eq!(InitType::S6.as_str(), "s6");
    assert_eq!(InitType::Init.as_str(), "init");
}

#[test]
fn detection_order() {
    assert_eq!(detect_init_system(&no_probes()), None);
    let mut p = no_probes();
    p.etc_init_d = true;
    assert_eq!(detect_init_system(&p), Some(InitType::Init));
    p.etc_s6 = true;
    assert_eq!(detect_init_system(&p), Some(InitType::Init));
    p.has_s6_svstat = true;
    assert_eq!(detect_init_system(&p), Some(InitType::S6));
    p.var_service = true;
    p.has_sv = true;
    assert_eq!(detect_init_system(&p), Some(InitType::Runit));
    p.etc_dinit_d = true;
    p.has_dinitctl = true;
    assert_eq!(detect_init_system(&p), Some(InitType::Dinit));
    p.sbin_openrc_run = true;
    assert_eq!(detect_init_system(&p), Some(InitType::OpenRc));
    p.run_systemd_system = true;
    assert_eq!(detect_init_system(&p), Some(InitType::Systemd));
    let m = get_detected_manager(&p).unwrap();
    assert_eq!(m.init_type(), InitType::Systemd);
    assert!(get_detected_manager(&no_probes()).is_none());
}

#[test]
fn systemd_unit_text() {
    let t = service_file_text(InitType::Systemd, "/usr/bin/zapret", "/etc/z.conf", "/var/cache/z");
    assert!(t.starts_with("[Unit]\nDescription=Zapret Discord Youtube Service\n"));
    assert!(t.contains("\nExecStart=/usr/bin/zapret --config /etc/z.conf --cache-dir /var/cache/z\nRestart=always\n"));
    assert!(t.ends_with("[Install]\nWantedBy=multi-user.target\n"));
}

#[test]
fn openrc_and_sysv_scripts() {
    let t = service_file_text(InitType::OpenRc, "/bin/z", "/c", "/k");
    assert!(t.starts_with("#!/sbin/openrc-run\n"));
    assert!(t.contains("command=\"/bin/z\"\ncommand_args=\"--config /c --cache-dir /k\"\n"));
    assert!(t.contains("depend() {\n    need net\n    after firewall\n}\n"));
    let s = service_file_text(InitType::Init, "/bin/z", "/c", "/k");
    assert!(s.contains("DAEMON=\"/bin/z\"\nDAEMON_ARGS=\"--config /c --cache-dir /k\"\n"));
    assert!(s.contains("echo \"Usage: $0 {start|stop|restart|status}\""));
    assert_eq!(service_file_text(InitType::S6, "/bin/z", "/c", "/k"), "#!/bin/sh\nexec /bin/z --config /c --cache-dir /k\n");
    assert_eq!(
        service_file_text(InitType::Runit, "/bin/z", "/c", "/k"),
        "#!/bin/sh\nexec 2>&1\nexec /bin/z --config /c --cache-dir /k\n"
    );
    assert_eq!(
        service_file_text(InitType::Dinit, "/bin/z", "/c", "/k"),
        "type = simple\ncommand = /bin/z --config /c --cache-dir /k\nrestart = true\nrestart-delay = 5\n"
    );
}

#[test]
fn systemd_plans() {
    let steps = install_steps(InitType::Systemd, "/bin/z", "/c", "/k", &host());
    assert_eq!(steps.len(), 3);
    match &steps[0] {
        Step::WriteFile { path, executable, .. } => {
            assert_eq!(path, "/etc/systemd/system/zapret-rust.service");
            assert!(!executable);
        }
        _ => panic!("expected a file"),
    }
    match &steps[2] {
        Step::Run { program, args, label, required, .. } => {
            assert_eq!(program, "systemctl");
            assert_eq!(args, &vec!["enable".to_string(), "zapret-rust".to_string()]);
            assert_eq!(label, "systemctl enable zapret-rust");
            assert!(required);
        }
        _ => panic!("expected a command"),
    }
    let un = uninstall_steps(InitType::Systemd, &host());
    assert_eq!(un.len(), 4);
    match &un[0] {
        Step::Run { label, required, .. } => {
            assert_eq!(label, "systemctl stop zapret-rust");
            assert!(!required);
        }
        _ => panic!("expected a command"),
    }
}

#[test]
fn uninstall_removes_every_installed_file() {
    for t in [InitType::Systemd, InitType::OpenRc, InitType::Runit, InitType::Dinit, InitType::S6, InitType::Init] {
        for h in [
            host(),
            ServiceHost { service_dir: true, var_service_dir: false, has_update_rc_d: false, has_chkconfig: true },
        ] {
            let ins = install_steps(t, "/bin/z", "/c", "/k", &h);
            let un = uninstall_steps(t, &h);
            for p in written_paths(&ins) {
                assert!(removes(&un, &p), "{:?} leaves {}", t, p);
            }
            assert!(removes(&un, installed_path(t)));
        }
    }
}

#[test]
fn runit_link_follows_host() {
    let h = ServiceHost { service_dir: true, var_service_dir: false, has_update_rc_d: false, has_chkconfig: false };
    let steps = install_steps(InitType::Runit, "/bin/z", "/c", "/k", &h);
    match &steps[2] {
        Step::Symlink { target, link, required } => {
            assert_eq!(target, "/etc/sv/zapret-rust");
            assert_eq!(link, "/service/zapret-rust");
            assert!(required);
        }
        _ => panic!("expected a link"),
    }
    let steps = install_steps(InitType::Runit, "/bin/z", "/c", "/k", &host());
    match &steps[2] {
        Step::Symlink { link, .. } => assert_eq!(link, "/var/service/zapret-rust"),
        _ => panic!("expected a link"),
    }
}

#[test]
fn sysv_registration() {
    let steps = install_steps(InitType::Init, "/bin/z", "/c", "/k", &host());
    match &steps[1] {
        Step::Run { program, args, label, exit_code_fallback, required } => {
            assert_eq!(program, "update-rc.d");
            assert_eq!(args, &vec!["zapret-rust".to_string(), "defaults".to_string()]);
            assert_eq!(label, "update-rc.d");
            assert!(!exit_code_fallback);
            assert!(required);
        }
        _ => panic!("expected a command"),
    }
    let none = ServiceHost { service_dir: false, var_service_dir: false, has_update_rc_d: false, has_chkconfig: false };
    assert_eq!(install_steps(InitType::Init, "/bin/z", "/c", "/k", &none).len(), 1);
    let un = uninstall_steps(InitType::Init, &none);
    assert_eq!(un.len(), 2);
}

#[test]
fn control_and_status_commands() {
    match control_step(InitType::OpenRc, Control::Restart) {
        Step::Run { program, args, label, .. } => {
            assert_eq!(program, "rc-service");
            assert_eq!(args, vec!["zapret-rust".to_string(), "restart".to_string()]);
            assert_eq!(label, "rc-service zapret-rust restart");
        }
        _ => panic!("expected a command"),
    }
    match get_manager(InitType::S6).start() {
        Step::Run { program, args, .. } => {
            assert_eq!(program, "s6-svc");
            assert_eq!(args, vec!["-u".to_string(), "/etc/s6/services/zapret-rust".to_string()]);
        }
        _ => panic!("expected a command"),
    }
    match status_step(InitType::Systemd) {
        Step::Run { program, args, .. } => {
            assert_eq!(program, "systemctl");
            assert_eq!(args, vec!["is-active".to_string(), "zapret-rust".to_string()]);
        }
        _ => panic!("expected a command"),
    }
    let m = get_manager(InitType::Init);
    assert!(matches!(m, AnyManager::Init(_)));
    assert_eq!(m.marker_path(), "/etc/init.d/zapret-rust");
}

#[test]
fn status_readings() {
    assert!(is_active_from(InitType::Runit, true, true, "  run: zapret-rust: (pid 12) 5s\n"));
    assert!(!is_active_from(InitType::Runit, true, true, "down: zapret-rust: 5s\n"));
    assert!(!is_active_from(InitType::Runit, true, false, "run: x"));
    assert!(is_active_from(InitType::Dinit, true, true, "Service: zapret-rust\n    Status: started\n"));
    assert!(is_active_from(InitType::Dinit, true, true, "Status: running"));
    assert!(!is_active_from(InitType::Dinit, true, true, "Status: stopped"));
    assert!(is_active_from(InitType::S6, true, true, "up (pid 42) 10 seconds"));
    assert!(!is_active_from(InitType::S6, true, true, "down 10 seconds"));
    assert!(!is_active_from(InitType::Init, false, true, ""));
    assert!(is_active_from(InitType::Init, true, true, ""));
    assert!(is_active_from(InitType::Systemd, false, true, ""));
}

#[test]
fn command_failures() {
    assert_eq!(command_outcome("systemctl start zapret-rust", true, true, "x", Some(1)), Ok(()));
    assert_eq!(
        command_outcome("systemctl start zapret-rust", true, false, "  boom \n", Some(1)),
        Err("systemctl start zapret-rust failed: boom".to_string())
    );
    assert_eq!(
        command_outcome("sv stop zapret-rust", true, false, " \n", Some(3)),
        Err("sv stop zapret-rust failed: exit code Some(3)".to_string())
    );
    assert_eq!(
        command_outcome("sv stop zapret-rust", true, false, "", Some(-2)),
        Err("sv stop zapret-rust failed: exit code Some(-2)".to_string())
    );
    assert_eq!(
        command_outcome("sv stop zapret-rust", true, false, "", None),
        Err("sv stop zapret-rust failed: exit code None".to_string())
    );
    assert_eq!(command_outcome("update-rc.d", false, false, "", Some(1)), Err("update-rc.d failed: ".to_string()));
}
