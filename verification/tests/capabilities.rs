use bua::capabilities::{
    Capability, CapabilitySet, FsCapability, FsMode, NetCapability, Permission,
};
use bua::capability_ctx::CapabilityContext;

fn workspace_caps() -> CapabilitySet {
    let mut caps = CapabilitySet::new();
    caps.grant(Capability::Filesystem(FsCapability {
        allowed_roots: vec!["/tmp/workspace".to_string()],
        mode: FsMode::READ | FsMode::WRITE | FsMode::CREATE,
    }));
    caps.grant(Capability::Network(NetCapability {
        allowed_hosts: vec!["api.openai.com".into()],
        allow_outbound: true,
        allow_inbound: false,
    }));
    caps
}

#[test]
fn fs_read_allowed_within_root() {
    let mut caps = CapabilitySet::new();
    caps.grant(Capability::Filesystem(FsCapability {
        allowed_roots: vec!["/workspace".to_string()],
        mode: FsMode::READ,
    }));
    assert!(caps.check(&Permission::FsRead("/workspace/foo.ts".to_string())));
    assert!(!caps.check(&Permission::FsRead("/etc/passwd".to_string())));
}

#[test]
fn net_wildcard_matching() {
    let mut caps = CapabilitySet::new();
    caps.grant(Capability::Network(NetCapability {
        allowed_hosts: vec!["*.openai.com".into()],
        allow_outbound: true,
        allow_inbound: false,
    }));
    assert!(caps.check(&Permission::NetConnect("api.openai.com".into())));
    assert!(!caps.check(&Permission::NetConnect("evil.com".into())));
}

#[test]
fn revoke_increments_generation() {
    let mut caps = CapabilitySet::new();
    let cap = Capability::AgentSpawn;
    caps.grant(cap.duplicate());
    assert_eq!(caps.generation(), 0);
    caps.revoke(&cap);
    assert_eq!(caps.generation(), 1);
    assert!(!caps.check(&Permission::AgentSpawn));
}

#[test]
fn allows_reads_within_workspace() {
    let caps = workspace_caps();
    assert!(caps.check(&Permission::FsRead("/tmp/workspace/data.json".to_string())));
}

#[test]
fn denies_reads_outside_workspace() {
    let caps = workspace_caps();
    assert!(!caps.check(&Permission::FsRead("/etc/shadow".to_string())));
}

#[test]
fn denies_writes_when_only_read_granted() {
    let mut caps = CapabilitySet::new();
    caps.grant(Capability::Filesystem(FsCapability {
        allowed_roots: vec!["/tmp/ro".to_string()],
        mode: FsMode::READ,
    }));
    assert!(caps.check(&Permission::FsRead("/tmp/ro/file".to_string())));
    assert!(!caps.check(&Permission::FsWrite("/tmp/ro/file".to_string())));
}

#[test]
fn allows_exact_host() {
    let caps = workspace_caps();
    assert!(caps.check(&Permission::NetConnect("api.openai.com".into())));
}

#[test]
fn denies_unlisted_host() {
    let caps = workspace_caps();
    assert!(!caps.check(&Permission::NetConnect("evil.example.com".into())));
}

#[test]
fn wildcard_host_matches_subdomain() {
    let mut caps = CapabilitySet::new();
    caps.grant(Capability::Network(NetCapability {
        allowed_hosts: vec!["*.anthropic.com".into()],
        allow_outbound: true,
        allow_inbound: false,
    }));
    assert!(caps.check(&Permission::NetConnect("api.anthropic.com".into())));
    assert!(caps.check(&Permission::NetConnect("console.anthropic.com".into())));
    assert!(!caps.check(&Permission::NetConnect("anthropic.com".into())));
}

#[test]
fn revocation_increments_generation_and_denies() {
    let mut caps = workspace_caps();
    let gen_before = caps.generation();

    let net_cap = Capability::Network(NetCapability {
        allowed_hosts: vec!["api.openai.com".into()],
        allow_outbound: true,
        allow_inbound: false,
    });

    let removed = caps.revoke(&net_cap);
    assert!(removed);
    assert_eq!(caps.generation(), gen_before + 1);
    assert!(!caps.check(&Permission::NetConnect("api.openai.com".into())));
}

#[test]
fn unrestricted_passes_all_checks() {
    let caps = CapabilitySet::unrestricted();
    assert!(caps.check(&Permission::FsRead("/etc/passwd".to_string())));
    assert!(caps.check(&Permission::NetConnect("anywhere.com".into())));
    assert!(caps.check(&Permission::AgentSpawn));
}

#[test]
fn no_caps_denies_everything() {
    let caps = CapabilitySet::new();
    assert!(!caps.check(&Permission::FsRead("/tmp/x".to_string())));
    assert!(!caps.check(&Permission::NetConnect("a.com".into())));
    assert!(!caps.check(&Permission::AgentSpawn));
}

#[test]
fn require_grants_and_denies() {
    let mut caps = CapabilitySet::new();
    caps.grant(Capability::Filesystem(FsCapability {
        allowed_roots: vec!["/tmp".to_string()],
        mode: FsMode::READ,
    }));
    let mut ctx = CapabilityContext::new(caps);

    assert!(ctx.require(&Permission::FsRead("/tmp/x".to_string())).is_ok());
    assert!(ctx.require(&Permission::FsWrite("/tmp/x".to_string())).is_err());
    assert_eq!(ctx.audit_log().len(), 2);
}

#[test]
fn revoke_all_denies_everything() {
    let mut ctx = CapabilityContext::unrestricted();
    ctx.revoke_all();
    assert!(ctx.require(&Permission::AgentSpawn).is_err());
}

#[test]
fn derive_child_cannot_exceed_parent() {
    let mut parent_caps = CapabilitySet::new();
    parent_caps.grant(Capability::AgentSpawn);
    let parent = CapabilityContext::new(parent_caps);

    let mut child_caps = CapabilitySet::new();
    child_caps.grant(Capability::AgentSpawn);
    child_caps.grant(Capability::Filesystem(FsCapability {
        allowed_roots: vec!["/etc".to_string()],
        mode: FsMode::READ,
    }));

    let mut child = parent.derive_child(child_caps);
    assert!(child.require(&Permission::FsRead("/etc/passwd".to_string())).is_err());
    assert!(child.check(&Permission::AgentSpawn));
}

// --- further cases ---

#[test]
fn derive_child_drops_what_parent_lacks() {
    let mut parent_caps = CapabilitySet::new();
    parent_caps.grant(Capability::Filesystem(FsCapability {
        allowed_roots: vec!["/tmp".to_string()],
        mode: FsMode::READ,
    }));
    let parent = CapabilityContext::new(parent_caps);

    let mut child_caps = CapabilitySet::new();
    child_caps.grant(Capability::Filesystem(FsCapability {
        allowed_roots: vec!["/tmp".to_string()],
        mode: FsMode::READ,
    }));
    child_caps.grant(Capability::Filesystem(FsCapability {
        allowed_roots: vec!["/etc".to_string()],
        mode: FsMode::READ,
    }));
    let mut child = parent.derive_child(child_caps);
    assert!(child.require(&Permission::FsRead("/tmp/a".to_string())).is_ok());
    assert!(child.require(&Permission::FsRead("/etc/passwd".to_string())).is_err());
    assert_eq!(child.generation(), 0);
}

#[test]
fn derive_child_of_spawner_is_refused_what_parent_lacks() {
    let mut parent_caps = CapabilitySet::new();
    parent_caps.grant(Capability::AgentSpawn);
    let parent = CapabilityContext::new(parent_caps);
    let mut child_caps = CapabilitySet::new();
    child_caps.grant(Capability::Filesystem(FsCapability {
        allowed_roots: vec!["/etc".to_string()],
        mode: FsMode::READ,
    }));
    let child = parent.derive_child(child_caps);
    assert!(!child.check(&Permission::FsRead("/etc/hosts".to_string())));
}

#[test]
fn derive_child_of_unrestricted_keeps_everything() {
    let parent = CapabilityContext::unrestricted();
    let mut child_caps = CapabilitySet::new();
    child_caps.grant(Capability::Filesystem(FsCapability {
        allowed_roots: vec!["/etc".to_string()],
        mode: FsMode::READ,
    }));
    let child = parent.derive_child(child_caps);
    assert!(child.check(&Permission::FsRead("/etc/hosts".to_string())));
    assert!(!child.check(&Permission::AgentSpawn));
}

#[test]
fn denial_message_names_request() {
    let mut ctx = CapabilityContext::deny_all();
    let err = ctx.require(&Permission::FsRead("/tmp/x".to_string())).unwrap_err();
    assert!(err.is_permission_error());
    assert_eq!(
        err.message(),
        "permission denied: FsRead(\"/tmp/x\") requires capability no matching capability in agent context"
    );
    let log = ctx.audit_log();
    assert_eq!(log.len(), 1);
    assert_eq!(log[0].permission, "FsRead(\"/tmp/x\")");
    assert!(!log[0].granted);
}

#[test]
fn describe_escapes_quotes() {
    let p = Permission::EnvRead("a\"b\\c".to_string());
    assert_eq!(p.describe(), "EnvRead(\"a\\\"b\\\\c\")");
    assert_eq!(Permission::AgentSpawn.describe(), "AgentSpawn");
}

#[test]
fn subprocess_and_env_rules() {
    let mut caps = CapabilitySet::new();
    caps.grant(Capability::Subprocess(bua::capabilities::SubprocessCapability {
        allowed_executables: vec!["git".to_string()],
    }));
    caps.grant(Capability::EnvRead(bua::capabilities::EnvCapability { allowed_keys: vec![] }));
    assert!(caps.check(&Permission::Subprocess("git".to_string())));
    assert!(!caps.check(&Permission::Subprocess("rm".to_string())));
    assert!(caps.check(&Permission::EnvRead("HOME".to_string())));

    let mut star = CapabilitySet::new();
    star.grant(Capability::Subprocess(bua::capabilities::SubprocessCapability {
        allowed_executables: vec!["*".to_string()],
    }));
    assert!(star.check(&Permission::Subprocess("anything".to_string())));
}

#[test]
fn grant_is_idempotent() {
    let mut caps = CapabilitySet::new();
    caps.grant(Capability::AgentSpawn);
    caps.grant(Capability::AgentSpawn);
    assert_eq!(caps.iter().count(), 1);
    assert!(!caps.revoke(&Capability::Unrestricted));
    assert_eq!(caps.generation(), 0);
}

#[test]
fn unrestricted_set_holds_one_capability() {
    let caps = CapabilitySet::unrestricted();
    assert_eq!(caps.generation(), 0);
    let items: Vec<_> = caps.iter().collect();
    assert_eq!(items.len(), 1);
    assert!(matches!(items[0], bua::capabilities::Capability::Unrestricted));
}

#[test]
fn permission_descriptions_escape_like_debug() {
    assert_eq!(Permission::NetConnect("a\u{1}b".into()).describe(), "NetConnect(\"a\\u{1}b\")");
    assert_eq!(Permission::FsRead("/tmp/a\tb".into()).describe(), "FsRead(\"/tmp/a\\tb\")");
    assert_eq!(Permission::EnvRead("x\"y".into()).describe(), "EnvRead(\"x\\\"y\")");
    assert_eq!(Permission::Subprocess("ls".into()).describe(), "Subprocess(\"ls\")");
    assert_eq!(Permission::AgentSpawn.describe(), "AgentSpawn");
}
