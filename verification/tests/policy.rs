use codex_mcp::SandboxPolicy;

#[test]
fn test_sandbox_policy_as_str() {
    assert_eq!(SandboxPolicy::ReadOnly.as_str(), "read-only");
    assert_eq!(SandboxPolicy::WorkspaceWrite.as_str(), "workspace-write");
    assert_eq!(
        SandboxPolicy::DangerFullAccess.as_str(),
        "danger-full-access"
    );
}

#[test]
fn test_sandbox_policy_default_is_read_only() {
    assert_eq!(SandboxPolicy::default().as_str(), "read-only");
}

#[test]
fn test_default_true() {
    assert!(codex_mcp::default_true());
}
