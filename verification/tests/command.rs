use codex_mcp::build_args;
use codex_mcp::CodexParams;
use codex_mcp::SandboxPolicy;

fn base_params() -> CodexParams {
    CodexParams {
        prompt: "fix the bug".to_string(),
        cd: "/tmp".to_string(),
        sandbox: SandboxPolicy::ReadOnly,
        session_id: None,
        skip_git_repo_check: true,
        return_all_messages: false,
        image: Vec::new(),
        model: None,
        yolo: false,
        profile: None,
    }
}

#[test]
fn test_build_args_minimal() {
    let args = build_args(&base_params(), false);
    assert_eq!(
        args,
        vec![
            "exec",
            "--sandbox",
            "read-only",
            "--cd",
            "/tmp",
            "--json",
            "--skip-git-repo-check",
            "--",
            "fix the bug",
        ]
    );
}

#[test]
fn test_resume_present_iff_session_non_empty() {
    let mut p = base_params();
    p.session_id = Some("abc123".to_string());
    let args = build_args(&p, false);
    let n = args.len();
    assert_eq!(&args[n - 4..], &["resume", "abc123", "--", "fix the bug"]);

    p.session_id = Some(String::new());
    let args = build_args(&p, false);
    assert!(!args.contains(&"resume".to_string()));

    p.session_id = None;
    let args = build_args(&p, false);
    assert!(!args.contains(&"resume".to_string()));
}

#[test]
fn test_prompt_always_last_after_end_of_flags() {
    let mut p = base_params();
    p.prompt = "--model evil".to_string();
    p.session_id = Some("s1".to_string());
    p.model = Some("o3".to_string());
    let args = build_args(&p, false);
    let n = args.len();
    assert_eq!(args[n - 2], "--");
    assert_eq!(args[n - 1], "--model evil");
}

#[test]
fn test_overrides_present_iff_trimmed_non_empty() {
    let mut p = base_params();
    p.model = Some("   ".to_string());
    p.profile = Some(String::new());
    let args = build_args(&p, false);
    assert!(!args.contains(&"--model".to_string()));
    assert!(!args.contains(&"--profile".to_string()));

    p.model = Some("o3".to_string());
    p.profile = Some("work".to_string());
    let args = build_args(&p, false);
    assert_eq!(
        args,
        vec![
            "exec",
            "--sandbox",
            "read-only",
            "--cd",
            "/tmp",
            "--json",
            "--model",
            "o3",
            "--profile",
            "work",
            "--skip-git-repo-check",
            "--",
            "fix the bug",
        ]
    );
}

#[test]
fn test_images_joined_comma_separated() {
    let mut p = base_params();
    p.image = vec!["a.png".to_string(), "b.png".to_string()];
    let args = build_args(&p, false);
    let i = args.iter().position(|a| a == "--image").unwrap();
    assert_eq!(args[i + 1], "a.png,b.png");

    p.image = vec!["one.jpg".to_string()];
    let args = build_args(&p, false);
    let i = args.iter().position(|a| a == "--image").unwrap();
    assert_eq!(args[i + 1], "one.jpg");
}

#[test]
fn test_optional_flags() {
    let mut p = base_params();
    p.yolo = true;
    p.skip_git_repo_check = false;
    p.sandbox = SandboxPolicy::DangerFullAccess;
    let args = build_args(&p, false);
    assert_eq!(
        args,
        vec![
            "exec",
            "--sandbox",
            "danger-full-access",
            "--cd",
            "/tmp",
            "--json",
            "--yolo",
            "--",
            "fix the bug",
        ]
    );
}

#[test]
fn test_windows_prompt_escaped_only_on_windows() {
    let mut p = base_params();
    p.prompt = "say \"hi\"".to_string();
    let plain = build_args(&p, false);
    assert_eq!(plain.last().unwrap(), "say \"hi\"");
    let escaped = build_args(&p, true);
    assert_eq!(escaped.last().unwrap(), "say \\\"hi\\\"");
}

#[test]
fn test_build_args_deterministic() {
    let p = base_params();
    assert_eq!(build_args(&p, false), build_args(&p, false));
}
