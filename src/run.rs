//! Running a resolved tool: the invocation it gets, and how its outcome is read.
use vstd::prelude::*;
use crate::error::OpError;
use crate::locate::{env_view, ghostscript_tool, qpdf_tool, EnvView, ResolvedTool, ToolSpec};
use crate::text::{chars_of, contains_ascii_ci, contains_ignore_case, lit, push_str, string_of};

verus! {

/// How a process ended. Failing to start is distinct from exiting unsuccessfully.
pub enum RunOutcome {
    Exited { success: bool, stdout: String, stderr: String },
    SpawnFailed { detail: String },
}

/// Everything needed to start a process.
pub struct Invocation {
    pub exe: String,
    pub cwd: String,
    pub args: Vec<String>,
    /// Applied in order, so a later entry overrides an earlier one.
    pub env: Vec<(String, String)>,
}

/// The search path with the tool's binary directory in front.
pub open spec fn search_path(bin_dir: Seq<char>, inherited: Seq<char>) -> Seq<char> {
    bin_dir + seq![';'] + inherited
}

/// The environment of a run: the search path first, then the tool's own
/// variables, then the caller's extra variables on top.
pub open spec fn run_env(tool: (Seq<char>, Seq<char>, EnvView), extra: EnvView, inherited: Seq<char>) -> EnvView {
    seq![("PATH"@, search_path(tool.0, inherited))] + tool.2 + extra
}

/// The invocation of `tool` with `args`: working directory is the binary
/// directory, the binary directory is put in front of the inherited search path,
/// and `extra_env` is layered over the tool's own variables.
pub fn prepare_run(
    tool: &ResolvedTool,
    args: Vec<String>,
    extra_env: &Vec<(String, String)>,
    inherited_path: &String,
) -> (r: Invocation)
    ensures
        r.exe@ == tool.exe@,
        r.cwd@ == tool.bin_dir@,
        r.args@ == args@,
        env_view(r.env@) == run_env(tool@, env_view(extra_env@), inherited_path@),
{
    let mut p = chars_of(&tool.bin_dir);
    p.push(';');
    push_str(&mut p, inherited_path.as_str());
    assert(p@ =~= search_path(tool.bin_dir@, inherited_path@));
    let path_entry = (lit("PATH"), string_of(&p));
    let mut env: Vec<(String, String)> = Vec::new();
    env.push(path_entry);
    let ghost first = env@;
    let mut i: usize = 0;
    while i < tool.env.len()
        invariant
            i <= tool.env.len(),
            env@ == first + tool.env@.subrange(0, i as int),
        decreases tool.env.len() - i,
    {
        let (k, v) = &tool.env[i];
        env.push((k.clone(), v.clone()));
        i = i + 1;
        assert(env@ =~= first + tool.env@.subrange(0, i as int));
    }
    let ghost second = env@;
    let mut j: usize = 0;
    while j < extra_env.len()
        invariant
            j <= extra_env.len(),
            env@ == second + extra_env@.subrange(0, j as int),
        decreases extra_env.len() - j,
    {
        let (k, v) = &extra_env[j];
        env.push((k.clone(), v.clone()));
        j = j + 1;
        assert(env@ =~= second + extra_env@.subrange(0, j as int));
    }
    assert(tool.env@.subrange(0, i as int) =~= tool.env@);
    assert(extra_env@.subrange(0, j as int) =~= extra_env@);
    assert(env@ =~= first + tool.env@ + extra_env@);
    assert(env_view(first) =~= seq![(path_entry.0@, path_entry.1@)]);
    assert(env_view(env@) =~= env_view(first) + env_view(tool.env@) + env_view(extra_env@));
    assert(env_view(env@) =~= run_env(tool@, env_view(extra_env@), inherited_path@));
    Invocation { exe: tool.exe.clone(), cwd: tool.bin_dir.clone(), args, env }
}

/// Whether the tool's probe run shows the expected tool: it exited successfully
/// and its output names the tool.
pub open spec fn identifies(tool: &ToolSpec, outcome: RunOutcome) -> bool {
    match outcome {
        RunOutcome::Exited { success, stdout, .. } => success && contains_ignore_case(
            stdout@,
            tool.identity@,
        ),
        RunOutcome::SpawnFailed { .. } => false,
    }
}

/// Reads the outcome of a tool's probe run: a spawn failure stays one, and any
/// other run that does not identify the tool is a verification failure carrying
/// its diagnostics.
pub fn verify_tool(tool: &ToolSpec, outcome: &RunOutcome) -> (r: Result<(), OpError>)
    ensures
        r is Ok <==> identifies(tool, *outcome),
        *outcome matches RunOutcome::SpawnFailed { detail } ==> r == Err::<(), OpError>(
            OpError::SpawnFailed { detail },
        ),
        *outcome matches RunOutcome::Exited { stderr, .. } ==> (!identifies(tool, *outcome) ==> r
            == Err::<(), OpError>(
            OpError::ToolVerificationFailed { tool: tool.name, detail: stderr },
        )),
{
    match outcome {
        RunOutcome::SpawnFailed { detail } => Err(OpError::SpawnFailed { detail: detail.clone() }),
        RunOutcome::Exited { success, stdout, stderr } => {
            if *success && contains_ascii_ci(stdout, &tool.identity) {
                Ok(())
            } else {
                Err(
                    OpError::ToolVerificationFailed {
                        tool: tool.name.clone(),
                        detail: stderr.clone(),
                    },
                )
            }
        },
    }
}

/// Confirms that the raster tool's `-v` run shows Ghostscript.
pub fn verify_gs(outcome: &RunOutcome) -> (r: Result<(), OpError>)
    ensures
        r is Ok <==> match *outcome {
            RunOutcome::Exited { success, stdout, .. } => success && contains_ignore_case(
                stdout@,
                "ghostscript"@,
            ),
            RunOutcome::SpawnFailed { .. } => false,
        },
        *outcome matches RunOutcome::SpawnFailed { detail } ==> r == Err::<(), OpError>(
            OpError::SpawnFailed { detail },
        ),
        *outcome matches RunOutcome::Exited { stderr, .. } ==> (r is Err ==> (r matches Err(
            OpError::ToolVerificationFailed { tool, detail },
        ) && tool@ == "gs"@ && detail == stderr)),
{
    let t = ghostscript_tool();
    verify_tool(&t, outcome)
}

/// Confirms that the lossless tool's `--version` run shows qpdf.
pub fn verify_qpdf(outcome: &RunOutcome) -> (r: Result<(), OpError>)
    ensures
        r is Ok <==> match *outcome {
            RunOutcome::Exited { success, stdout, .. } => success && contains_ignore_case(
                stdout@,
                "qpdf"@,
            ),
            RunOutcome::SpawnFailed { .. } => false,
        },
        *outcome matches RunOutcome::SpawnFailed { detail } ==> r == Err::<(), OpError>(
            OpError::SpawnFailed { detail },
        ),
        *outcome matches RunOutcome::Exited { stderr, .. } ==> (r is Err ==> (r matches Err(
            OpError::ToolVerificationFailed { tool, detail },
        ) && tool@ == "qpdf"@ && detail == stderr)),
{
    let t = qpdf_tool();
    verify_tool(&t, outcome)
}

/// How a work run ended: success is `Ok`; a non-zero exit is an execution
/// failure carrying the captured diagnostics.
pub open spec fn check_run_spec(outcome: RunOutcome) -> Result<(), OpError> {
    match outcome {
        RunOutcome::SpawnFailed { detail } => Err(OpError::SpawnFailed { detail }),
        RunOutcome::Exited { success, stderr, .. } => if success {
            Ok(())
        } else {
            Err(OpError::ToolExecutionFailed { diagnostics: stderr })
        },
    }
}

/// Reads the outcome of a tool's work run.
pub fn check_run(outcome: &RunOutcome) -> (r: Result<(), OpError>)
    ensures
        r == check_run_spec(*outcome),
{
    match outcome {
        RunOutcome::SpawnFailed { detail } => Err(OpError::SpawnFailed { detail: detail.clone() }),
        RunOutcome::Exited { success, stderr, .. } => {
            if *success {
                Ok(())
            } else {
                Err(OpError::ToolExecutionFailed { diagnostics: stderr.clone() })
            }
        },
    }
}

/// The ways the merge path tries to run the lossless tool, in order.
#[derive(Clone, Copy, Debug, PartialEq, Eq, Structural)]
pub enum QpdfRoute {
    /// The executable of the development tree, started directly.
    DevDirect,
    /// The packaged executable, started through the host's sidecar mechanism.
    ResourceSidecar,
    /// The packaged executable, started directly.
    ResourceDirect,
}

/// What to do next when running the lossless tool by routes.
pub enum RouteStep {
    Run(QpdfRoute),
    Done,
    Fail(OpError),
}

/// The run ends because the packaged executable `res_exe` is missing; the
/// error names it.
pub open spec fn not_found(r: RouteStep, res_exe: Seq<char>) -> bool {
    r matches RouteStep::Fail(OpError::ToolNotFound { tool, looked_for }) && tool@ == "qpdf"@
        && looked_for@.len() == 1 && looked_for@[0]@ == res_exe
}

pub open spec fn succeeded(o: RunOutcome) -> bool {
    o matches RunOutcome::Exited { success, .. } && success
}

fn qpdf_not_found(res_exe: &String) -> (r: RouteStep)
    ensures
        not_found(r, res_exe@),
{
    let mut looked_for: Vec<String> = Vec::new();
    looked_for.push(res_exe.clone());
    RouteStep::Fail(OpError::ToolNotFound { tool: lit("qpdf"), looked_for })
}

/// The first route: the development executable where it exists, else the
/// packaged one `res_exe`; with neither, the tool is not found and the error
/// names `res_exe`.
pub fn route_start(dev_exists: bool, res_exe: &String, res_exists: bool) -> (r: RouteStep)
    ensures
        dev_exists ==> r == RouteStep::Run(QpdfRoute::DevDirect),
        !dev_exists && res_exists ==> r == RouteStep::Run(QpdfRoute::ResourceSidecar),
        !dev_exists && !res_exists ==> not_found(r, res_exe@),
{
    if dev_exists {
        RouteStep::Run(QpdfRoute::DevDirect)
    } else if res_exists {
        RouteStep::Run(QpdfRoute::ResourceSidecar)
    } else {
        qpdf_not_found(res_exe)
    }
}

/// The step after a route ran. A success ends the run; a failure of the
/// development executable or of the sidecar moves on to the next route; a
/// failure of the last route is reported, as a spawn failure or with the
/// captured diagnostics. Where the packaged executable `res_exe` is missing,
/// the error names it.
pub fn route_next(route: QpdfRoute, outcome: &RunOutcome, res_exe: &String, res_exists: bool) -> (r: RouteStep)
    ensures
        succeeded(*outcome) ==> r == RouteStep::Done,
        !succeeded(*outcome) ==> match route {
            QpdfRoute::DevDirect => if res_exists {
                r == RouteStep::Run(QpdfRoute::ResourceSidecar)
            } else {
                not_found(r, res_exe@)
            },
            QpdfRoute::ResourceSidecar => r == RouteStep::Run(QpdfRoute::ResourceDirect),
            QpdfRoute::ResourceDirect => exists|e: OpError|
                r == RouteStep::Fail(e) && check_run_spec(*outcome) == Err::<(), OpError>(e),
        },
{
    let ok = match outcome {
        RunOutcome::Exited { success, .. } => *success,
        RunOutcome::SpawnFailed { .. } => false,
    };
    if ok {
        return RouteStep::Done;
    }
    match route {
        QpdfRoute::DevDirect => {
            if res_exists {
                RouteStep::Run(QpdfRoute::ResourceSidecar)
            } else {
                qpdf_not_found(res_exe)
            }
        },
        QpdfRoute::ResourceSidecar => RouteStep::Run(QpdfRoute::ResourceDirect),
        QpdfRoute::ResourceDirect => match check_run(outcome) {
            Ok(()) => RouteStep::Done,
            Err(e) => RouteStep::Fail(e),
        },
    }
}

} // verus!
