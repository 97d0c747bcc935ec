use gnirehtet_vd::paths::{
    user_only_pipe_sddl, windows_admin_pipe_name, windows_broker_pipe_name, AppPath, AppPaths,
    Environment,
};

#[test]
fn named_pipe_dacl_grants_only_the_current_user_sid() {
    assert_eq!(
        user_only_pipe_sddl("S-1-5-21-1-2-3-1001"),
        "D:P(A;;GA;;;S-1-5-21-1-2-3-1001)"
    );
}

#[test]
fn pipes_are_named_after_the_user() {
    assert_eq!(
        windows_admin_pipe_name("S-1-5-21"),
        r"\\.\pipe\gnirehtet-vd-S_1_5_21"
    );
    assert_eq!(
        windows_broker_pipe_name("S-1-5-21"),
        r"\\.\pipe\gnirehtet-vd-broker-S_1_5_21"
    );
    assert_ne!(windows_admin_pipe_name("broker-S-1"), windows_broker_pipe_name("S-1"));
}

#[test]
fn users_get_pipes_of_their_own() {
    let sids = ["S-1-5-21-1-2-3-1001", "S-1-5-21-1-2-3-1002", "S-1-5-21-12-3-1001", "S-1-5-18"];
    for (i, first) in sids.iter().enumerate() {
        for second in &sids[i + 1..] {
            assert_ne!(windows_admin_pipe_name(first), windows_admin_pipe_name(second));
            assert_ne!(windows_broker_pipe_name(first), windows_broker_pipe_name(second));
        }
    }
}

fn environment() -> Environment {
    Environment {
        gnirehtet_vd_home: None,
        local_app_data: None,
        xdg_state_home: None,
        home: None,
        temp_dir: "/tmp".to_owned(),
    }
}

fn spelled(path: &AppPath) -> String {
    let mut text = path.base.clone();
    for name in &path.names {
        text.push('/');
        text.push_str(name);
    }
    text
}

fn root(override_root: Option<&str>, environment: Environment, windows: bool) -> String {
    let paths = AppPaths::discover(override_root.map(|root| root.to_owned()), environment, windows);
    spelled(&paths.root)
}

#[test]
fn the_root_is_found_in_order() {
    assert_eq!(root(None, environment(), false), "/tmp/gnirehtet-vd");
    assert_eq!(root(None, environment(), true), "/tmp/GnirehtetVD");
    let mut found = environment();
    found.home = Some("/home/u".to_owned());
    found.local_app_data = Some("C:/local".to_owned());
    assert_eq!(root(None, found, true), "C:/local/GnirehtetVD");
    let mut found = environment();
    found.home = Some("/home/u".to_owned());
    assert_eq!(root(None, found, false), "/home/u/.local/state/gnirehtet-vd");
    let mut found = environment();
    found.home = Some("/home/u".to_owned());
    found.xdg_state_home = Some("/state".to_owned());
    assert_eq!(root(None, found, false), "/state/gnirehtet-vd");
    let mut found = environment();
    found.xdg_state_home = Some("/state".to_owned());
    found.gnirehtet_vd_home = Some("/vd".to_owned());
    assert_eq!(root(None, found, false), "/vd");
    let mut found = environment();
    found.gnirehtet_vd_home = Some("/vd".to_owned());
    assert_eq!(root(Some("/asked"), found, true), "/asked");
}

#[test]
fn the_files_are_in_the_root() {
    let paths = AppPaths::discover(Some("/r".to_owned()), environment(), false);
    assert_eq!(spelled(&paths.logs), "/r/logs");
    assert_eq!(spelled(&paths.status), "/r/status.json");
    assert_eq!(spelled(&paths.daemon_pid), "/r/daemon.pid");
    assert_eq!(spelled(&paths.operation_lock), "/r/operation.lock");
    assert_eq!(spelled(&paths.runtime_lock), "/r/runtime.lock");
    assert_eq!(spelled(&paths.admin_token), "/r/admin.token");
    assert_eq!(spelled(&paths.admin_socket), "/r/admin.sock");
}
