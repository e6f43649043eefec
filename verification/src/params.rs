//! The validated parameter set for one child invocation.

use vstd::prelude::*;

verus! {

/// Sandbox policy for the commands the child agent may run on its own.
#[derive(Debug, Clone, PartialEq, Eq, Structural)]
pub enum SandboxPolicy {
    /// Read-only mode, the most restrictive.
    ReadOnly,
    /// Writing is allowed within the workspace.
    WorkspaceWrite,
    /// Full access.
    DangerFullAccess,
}

impl SandboxPolicy {
    /// The string form passed to the child under the sandbox flag.
    pub open spec fn str_spec(self) -> Seq<char> {
        match self {
            SandboxPolicy::ReadOnly => "read-only"@,
            SandboxPolicy::WorkspaceWrite => "workspace-write"@,
            SandboxPolicy::DangerFullAccess => "danger-full-access"@,
        }
    }

    pub fn as_str(&self) -> (r: &'static str)
        ensures
            r@ == self.str_spec(),
    {
        match self {
            SandboxPolicy::ReadOnly => "read-only",
            SandboxPolicy::WorkspaceWrite => "workspace-write",
            SandboxPolicy::DangerFullAccess => "danger-full-access",
        }
    }
}

impl Default for SandboxPolicy {
    /// The default policy is the most restrictive one.
    fn default() -> (r: Self)
        ensures
            r == SandboxPolicy::ReadOnly,
    {
        SandboxPolicy::ReadOnly
    }
}

/// The default for `skip_git_repo_check`: the repository-presence check is
/// bypassed unless the caller turns the bypass off.
pub fn default_true() -> (r: bool)
    ensures
        r,
{
    true
}

/// Immutable input for a single run, consumed entirely by the command
/// builder.  Paths are carried as plain strings; the caller is responsible
/// for checking that `cd` names an existing directory before spawning.
#[derive(Debug, Clone)]
pub struct CodexParams {
    /// Free-text instruction for the task.
    pub prompt: String,
    /// Workspace root for the child, as a path string.
    pub cd: String,
    /// Sandbox policy for model-generated commands.
    pub sandbox: SandboxPolicy,
    /// Prior session to resume; `None` or empty starts a new session.
    pub session_id: Option<String>,
    /// Allow the child to run outside a Git repository.
    pub skip_git_repo_check: bool,
    /// Retain every decoded event in the result.
    pub return_all_messages: bool,
    /// Image files to attach to the initial prompt, as path strings.
    pub image: Vec<String>,
    /// Model-name override; blank means no override.
    pub model: Option<String>,
    /// Run every command without approvals or sandboxing.
    pub yolo: bool,
    /// Configuration profile name to load; blank means no override.
    pub profile: Option<String>,
}

/// Mathematical image of a parameter set: every string as a `Seq<char>`.
pub struct ParamsModel {
    pub prompt: Seq<char>,
    pub cd: Seq<char>,
    pub sandbox: SandboxPolicy,
    pub session_id: Option<Seq<char>>,
    pub skip_git_repo_check: bool,
    pub return_all_messages: bool,
    pub image: Seq<Seq<char>>,
    pub model: Option<Seq<char>>,
    pub yolo: bool,
    pub profile: Option<Seq<char>>,
}

impl View for CodexParams {
    type V = ParamsModel;

    open spec fn view(&self) -> ParamsModel {
        ParamsModel {
            prompt: self.prompt@,
            cd: self.cd@,
            sandbox: self.sandbox,
            session_id: self.session_id.deep_view(),
            skip_git_repo_check: self.skip_git_repo_check,
            return_all_messages: self.return_all_messages,
            image: self.image.deep_view(),
            model: self.model.deep_view(),
            yolo: self.yolo,
            profile: self.profile.deep_view(),
        }
    }
}

} // verus!
