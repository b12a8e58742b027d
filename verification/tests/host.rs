use command_host::host::{Command, Host, HostState, Outcome};

#[test]
fn new_host_not_started() {
    let h = Host::new();
    assert!(matches!(h.state, HostState::NotStarted));
}

#[test]
fn start_ok_runs() {
    let mut h = Host::new();
    h.start(Ok(()));
    assert!(matches!(h.state, HostState::Running));
}

#[test]
fn start_err_terminates_with_diagnostic() {
    let mut h = Host::new();
    h.start(Err(String::from("no window system")));
    match h.state {
        HostState::Terminated(Outcome::Fatal(d)) => {
            assert!(!d.is_empty());
            assert_eq!(d, "error while running tauri application: no window system");
        }
        _ => panic!("startup failure must terminate the host fatally"),
    }
}

#[test]
fn start_err_empty_text_still_nonempty_diagnostic() {
    let mut h = Host::new();
    h.start(Err(String::new()));
    match h.state {
        HostState::Terminated(Outcome::Fatal(d)) => assert!(!d.is_empty()),
        _ => panic!("startup failure must terminate the host fatally"),
    }
}

#[test]
fn dispatch_answers_and_leaves_host_running() {
    let mut h = Host::new();
    h.start(Ok(()));
    let greet_cmd = Command::Greet(String::from("Ada"));
    assert_eq!(h.dispatch(&greet_cmd), "Hello, Ada! You've been greeted from Rust!");
    assert_eq!(h.dispatch(&Command::PerformGpuTask), "GPU task completed");
    assert!(matches!(h.state, HostState::Running));
}

#[test]
fn dispatch_many_times_is_pure() {
    let mut h = Host::new();
    h.start(Ok(()));
    let cmd = Command::Greet(String::from("Ada"));
    let first = h.dispatch(&cmd);
    let mut i: usize = 0;
    while i < 10 {
        assert_eq!(h.dispatch(&cmd), first);
        assert_eq!(h.dispatch(&Command::PerformGpuTask), "GPU task completed");
        assert!(matches!(h.state, HostState::Running));
        i += 1;
    }
}

#[test]
fn finish_terminates_successfully() {
    let mut h = Host::new();
    h.start(Ok(()));
    h.finish();
    assert!(matches!(h.state, HostState::Terminated(Outcome::Success)));
}
