use kaze::detector::{describe_process, is_binary_running, pacman_lock_path, ProcInfo};

fn proc(pid: i32, exe: Option<&str>, cmdline: &str) -> ProcInfo {
    ProcInfo { pid, exe: exe.map(|e| e.to_string()), cmdline: cmdline.to_string(), state: 'S' }
}

#[test]
fn binary_running_by_exe_or_cmdline() {
    let procs = vec![
        proc(1, Some("/usr/lib/systemd/systemd"), "/sbin/init splash"),
        proc(200, None, "node /usr/bin/npm install"),
        proc(300, Some("/usr/bin/dockerd"), ""),
    ];
    assert!(is_binary_running(&procs, "systemd"));
    assert!(is_binary_running(&procs, "npm"));
    assert!(is_binary_running(&procs, "docker"));
    assert!(!is_binary_running(&procs, "pacman"));
    assert!(!is_binary_running(&Vec::new(), "node"));
}

#[test]
fn zombies_and_unreadable_processes_are_skipped() {
    assert!(describe_process(7, Some('Z'), None, None).is_none());
    assert!(describe_process(7, None, Some("/bin/sh".to_string()), None).is_none());
}

#[test]
fn process_record_joins_arguments() {
    let args = vec!["npm".to_string(), "cache".to_string(), "verify".to_string()];
    let p = describe_process(42, Some('R'), Some("/usr/bin/node".to_string()), Some(args)).unwrap();
    assert_eq!(p.pid, 42);
    assert_eq!(p.state, 'R');
    assert_eq!(p.exe.as_deref(), Some("/usr/bin/node"));
    assert_eq!(p.cmdline, "npm cache verify");
    let q = describe_process(43, Some('S'), None, None).unwrap();
    assert_eq!(q.cmdline, "");
    assert!(q.exe.is_none());
}

#[test]
fn pacman_lock_file() {
    assert_eq!(pacman_lock_path(), "/var/lib/pacman/db.lck");
}
