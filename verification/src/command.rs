//! Building the child's ordered argument vector from a parameter set.
//!
//! The order is fixed and deterministic: mode marker, sandbox flag, working
//! directory, output-format flag, then the optional flags, then the
//! end-of-flags marker and the free-text instruction as the final positional
//! argument.

use vstd::prelude::*;

use crate::params::CodexParams;
use crate::params::ParamsModel;
use crate::text::escape_spec;
use crate::text::join_comma;
use crate::text::join_comma_spec;
use crate::text::trim_spec;
use crate::text::trim_str;
use crate::text::windows_escape;

verus! {

/// A non-empty session identity was supplied.
pub open spec fn has_session(p: ParamsModel) -> bool {
    match p.session_id {
        Some(s) => s.len() > 0,
        None => false,
    }
}

/// The supplied session identity, where there is one.
pub open spec fn session_of(p: ParamsModel) -> Seq<char> {
    match p.session_id {
        Some(s) => s,
        None => Seq::empty(),
    }
}

/// An override is passed only when its trimmed value is non-empty: an
/// explicitly blank override means "no override", not "set to empty".
pub open spec fn override_present(o: Option<Seq<char>>) -> bool {
    match o {
        Some(s) => trim_spec(s).len() > 0,
        None => false,
    }
}

/// The override's value, where there is one.
pub open spec fn override_of(o: Option<Seq<char>>) -> Seq<char> {
    match o {
        Some(s) => s,
        None => Seq::empty(),
    }
}

/// The fixed leading arguments: mode marker, sandbox policy, working
/// directory, machine-readable output.
pub open spec fn base_args(p: ParamsModel) -> Seq<Seq<char>> {
    seq!["exec"@, "--sandbox"@, p.sandbox.str_spec(), "--cd"@, p.cd, "--json"@]
}

/// Attachment paths, joined into one comma-separated value.
pub open spec fn image_args(p: ParamsModel) -> Seq<Seq<char>> {
    if p.image.len() > 0 {
        seq!["--image"@, join_comma_spec(p.image)]
    } else {
        Seq::empty()
    }
}

/// The model override, present iff its trimmed value is non-empty.
pub open spec fn model_args(p: ParamsModel) -> Seq<Seq<char>> {
    if override_present(p.model) {
        seq!["--model"@, override_of(p.model)]
    } else {
        Seq::empty()
    }
}

/// The profile override, present iff its trimmed value is non-empty.
pub open spec fn profile_args(p: ParamsModel) -> Seq<Seq<char>> {
    if override_present(p.profile) {
        seq!["--profile"@, override_of(p.profile)]
    } else {
        Seq::empty()
    }
}

/// The unrestricted-execution flag, present only if requested.
pub open spec fn yolo_args(p: ParamsModel) -> Seq<Seq<char>> {
    if p.yolo {
        seq!["--yolo"@]
    } else {
        Seq::empty()
    }
}

/// The repository-presence-bypass flag, present only if requested.
pub open spec fn skip_git_args(p: ParamsModel) -> Seq<Seq<char>> {
    if p.skip_git_repo_check {
        seq!["--skip-git-repo-check"@]
    } else {
        Seq::empty()
    }
}

/// The resume sub-command, appended iff a non-empty session identity was
/// supplied.
pub open spec fn resume_args(p: ParamsModel) -> Seq<Seq<char>> {
    if has_session(p) {
        seq!["resume"@, session_of(p)]
    } else {
        Seq::empty()
    }
}

/// The instruction text, escaped on the platform whose argument parsing
/// requires it.
pub open spec fn final_prompt(p: ParamsModel, windows: bool) -> Seq<char> {
    if windows {
        escape_spec(p.prompt)
    } else {
        p.prompt
    }
}

/// The end-of-flags marker followed by the instruction.
pub open spec fn prompt_args(p: ParamsModel, windows: bool) -> Seq<Seq<char>> {
    seq!["--"@, final_prompt(p, windows)]
}

/// The full ordered argument vector handed to the child after the program
/// path.
pub open spec fn args_spec(p: ParamsModel, windows: bool) -> Seq<Seq<char>> {
    base_args(p) + image_args(p) + model_args(p) + profile_args(p) + yolo_args(p) + skip_git_args(
        p,
    ) + resume_args(p) + prompt_args(p, windows)
}

/// Does the trimmed string hold anything?  Used for the override checks.
fn trimmed_non_empty(s: &String) -> (r: bool)
    ensures
        r == (trim_spec(s@).len() > 0),
{
    let t = trim_str(s.as_str());
    !t.as_str().is_empty()
}

/// Builds the child's argument vector.  The same request always yields the
/// same vector; `windows` says whether the platform escape is applied to the
/// instruction.
#[verifier::rlimit(60)]
pub fn build_args(p: &CodexParams, windows: bool) -> (r: Vec<String>)
    ensures
        r.deep_view() == args_spec(p@, windows),
{
    let mut r: Vec<String> = Vec::new();
    r.push(String::from_str("exec"));
    r.push(String::from_str("--sandbox"));
    r.push(String::from_str(p.sandbox.as_str()));
    r.push(String::from_str("--cd"));
    r.push(p.cd.clone());
    r.push(String::from_str("--json"));
    proof {
        assert(r.deep_view() =~~= base_args(p@));
    }
    let ghost pre1 = base_args(p@);
    if p.image.len() > 0 {
        r.push(String::from_str("--image"));
        r.push(join_comma(&p.image));
    }
    proof {
        assert(r.deep_view() =~~= pre1 + image_args(p@));
    }
    let ghost pre2 = pre1 + image_args(p@);
    match &p.model {
        Some(m) => {
            if trimmed_non_empty(m) {
                r.push(String::from_str("--model"));
                r.push(m.clone());
            }
        },
        None => {},
    }
    proof {
        assert(r.deep_view() =~~= pre2 + model_args(p@));
    }
    let ghost pre3 = pre2 + model_args(p@);
    match &p.profile {
        Some(f) => {
            if trimmed_non_empty(f) {
                r.push(String::from_str("--profile"));
                r.push(f.clone());
            }
        },
        None => {},
    }
    proof {
        assert(r.deep_view() =~~= pre3 + profile_args(p@));
    }
    let ghost pre4 = pre3 + profile_args(p@);
    if p.yolo {
        r.push(String::from_str("--yolo"));
    }
    proof {
        assert(r.deep_view() =~~= pre4 + yolo_args(p@));
    }
    let ghost pre5 = pre4 + yolo_args(p@);
    if p.skip_git_repo_check {
        r.push(String::from_str("--skip-git-repo-check"));
    }
    proof {
        assert(r.deep_view() =~~= pre5 + skip_git_args(p@));
    }
    let ghost pre6 = pre5 + skip_git_args(p@);
    match &p.session_id {
        Some(s) => {
            if !s.as_str().is_empty() {
                r.push(String::from_str("resume"));
                r.push(s.clone());
            }
        },
        None => {},
    }
    proof {
        assert(r.deep_view() =~~= pre6 + resume_args(p@));
    }
    let ghost pre7 = pre6 + resume_args(p@);
    r.push(String::from_str("--"));
    if windows {
        r.push(windows_escape(p.prompt.as_str()));
    } else {
        r.push(p.prompt.clone());
    }
    proof {
        assert(r.deep_view() =~~= pre7 + prompt_args(p@, windows));
        assert(r.deep_view() =~~= args_spec(p@, windows));
    }
    r
}

/// Session resumption is appended to the argument vector if and only if a
/// non-empty session identity was supplied: with one, the resume sub-command
/// and the identity stand right before the end-of-flags marker; without one,
/// the vector holds no resume segment at all.
pub proof fn lemma_resume_iff_session(p: ParamsModel, windows: bool)
    ensures
        resume_args(p).len() != 0 <==> has_session(p),
        has_session(p) ==> {
            let a = args_spec(p, windows);
            &&& a.len() >= 4
            &&& a[a.len() - 4] == "resume"@
            &&& a[a.len() - 3] == session_of(p)
        },
        !has_session(p) ==> args_spec(p, windows) == base_args(p) + image_args(p) + model_args(p)
            + profile_args(p) + yolo_args(p) + skip_git_args(p) + prompt_args(p, windows),
{
    let a = args_spec(p, windows);
    if has_session(p) {
        let pre = base_args(p) + image_args(p) + model_args(p) + profile_args(p) + yolo_args(p)
            + skip_git_args(p);
        assert(a.len() == pre.len() + 4);
        assert(a[a.len() - 4] == "resume"@);
        assert(a[a.len() - 3] == session_of(p));
    } else {
        assert(args_spec(p, windows) =~= base_args(p) + image_args(p) + model_args(p)
            + profile_args(p) + yolo_args(p) + skip_git_args(p) + prompt_args(p, windows));
    }
}

/// The free-text instruction appears as the last argument, right after the
/// explicit end-of-flags marker, whatever the instruction's content.
pub proof fn lemma_prompt_is_last(p: ParamsModel, windows: bool)
    ensures
        args_spec(p, windows).len() >= 2,
        args_spec(p, windows).last() == final_prompt(p, windows),
        args_spec(p, windows)[args_spec(p, windows).len() - 2] == "--"@,
{
    let a = args_spec(p, windows);
    let pre = base_args(p) + image_args(p) + model_args(p) + profile_args(p) + yolo_args(p)
        + skip_git_args(p) + resume_args(p);
    assert(a.len() == pre.len() + 2);
    assert(a[a.len() - 2] == prompt_args(p, windows)[0]);
    assert(a[a.len() - 1] == prompt_args(p, windows)[1]);
}

/// Model and profile overrides are present in the argument vector if and
/// only if their trimmed value is non-empty; when present, each is one flag
/// followed by the untrimmed value.
pub proof fn lemma_overrides_iff_trimmed_non_empty(p: ParamsModel, windows: bool)
    ensures
        model_args(p).len() != 0 <==> override_present(p.model),
        profile_args(p).len() != 0 <==> override_present(p.profile),
        override_present(p.model) ==> model_args(p) == seq!["--model"@, override_of(p.model)],
        override_present(p.profile) ==> profile_args(p) == seq![
            "--profile"@,
            override_of(p.profile),
        ],
        override_present(p.model) ==> {
            let a = args_spec(p, windows);
            let i = base_args(p).len() + image_args(p).len();
            &&& i + 1 < a.len()
            &&& a[i as int] == "--model"@
            &&& a[i + 1int] == override_of(p.model)
        },
        override_present(p.profile) ==> {
            let a = args_spec(p, windows);
            let i = base_args(p).len() + image_args(p).len() + model_args(p).len();
            &&& i + 1 < a.len()
            &&& a[i as int] == "--profile"@
            &&& a[i + 1int] == override_of(p.profile)
        },
{
}

} // verus!
