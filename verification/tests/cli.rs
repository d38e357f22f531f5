use bua::capabilities::{FsMode, Permission};
use bua::cli::{build_capabilities, fs_mode_of, heap_bytes_of_mib, split_fs_arg, timeout_ms_of_secs};

#[test]
fn fs_arg_splits_at_first_colon() {
    assert_eq!(split_fs_arg("/tmp/work:r"), ("/tmp/work".to_string(), "r".to_string()));
    assert_eq!(split_fs_arg("a:b:c"), ("a".to_string(), "b:c".to_string()));
}

#[test]
fn fs_arg_without_mode_is_read_write() {
    assert_eq!(split_fs_arg("/data"), ("/data".to_string(), "rw".to_string()));
    assert_eq!(split_fs_arg(""), ("".to_string(), "rw".to_string()));
}

#[test]
fn fs_modes_by_name() {
    assert_eq!(fs_mode_of("r"), Ok(FsMode::READ));
    assert_eq!(fs_mode_of("rw"), Ok(FsMode::READ | FsMode::WRITE | FsMode::CREATE));
    assert_eq!(
        fs_mode_of("rwcd"),
        Ok(FsMode::READ | FsMode::WRITE | FsMode::CREATE | FsMode::DELETE)
    );
    assert_eq!(fs_mode_of("rw"), Ok(7));
    assert_eq!(fs_mode_of("rwcd"), Ok(15));
}

#[test]
fn unknown_fs_mode_is_an_error() {
    assert_eq!(fs_mode_of("x"), Err("unknown fs mode 'x' (use r, rw, rwcd)".to_string()));
    assert_eq!(fs_mode_of(""), Err("unknown fs mode '' (use r, rw, rwcd)".to_string()));
}

#[test]
fn allow_all_grants_everything() {
    let caps = build_capabilities(true, vec![], vec![], vec![], false);
    assert!(caps.check(&Permission::AgentSpawn));
    assert!(caps.check(&Permission::FsWrite("/etc/passwd".into())));
}

#[test]
fn flags_grant_their_scopes_only() {
    let caps = build_capabilities(
        false,
        vec![("/tmp/work".to_string(), FsMode::READ)],
        vec!["api.openai.com".to_string()],
        vec!["git".to_string()],
        true,
    );
    assert!(caps.check(&Permission::FsRead("/tmp/work/a.txt".into())));
    assert!(!caps.check(&Permission::FsWrite("/tmp/work/a.txt".into())));
    assert!(!caps.check(&Permission::FsRead("/etc/hosts".into())));
    assert!(caps.check(&Permission::NetConnect("api.openai.com".into())));
    assert!(!caps.check(&Permission::NetConnect("example.com".into())));
    assert!(caps.check(&Permission::Subprocess("git".into())));
    assert!(!caps.check(&Permission::Subprocess("rm".into())));
    assert!(caps.check(&Permission::EnvRead("HOME".into())));
    assert!(!caps.check(&Permission::AgentSpawn));
}

#[test]
fn no_flags_grant_nothing() {
    let caps = build_capabilities(false, vec![], vec![], vec![], false);
    assert!(!caps.check(&Permission::EnvRead("HOME".into())));
    assert!(!caps.check(&Permission::NetConnect("api.openai.com".into())));
    assert!(!caps.check(&Permission::Subprocess("git".into())));
}

#[test]
fn heap_limit_in_bytes() {
    assert_eq!(heap_bytes_of_mib(256), 268_435_456);
    assert_eq!(heap_bytes_of_mib(0), 0);
}

#[test]
fn zero_timeout_means_none() {
    assert_eq!(timeout_ms_of_secs(0), None);
    assert_eq!(timeout_ms_of_secs(300), Some(300_000));
}
