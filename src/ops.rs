//! The user-facing operations, as decisions taken before and between tool runs:
//! what to stage, what to check, which invocation comes next and when to stop.
use vstd::prelude::*;
use crate::args::{build_args_merge_paths, build_args_split, merge_args, split_args, views};
use crate::compress::{compress_start, first_attempt, Attempt, CompressPreset};
use crate::error::{InputProblem, OpError};
use crate::guard::{assert_output_not_in_inputs, assert_output_not_same, collides};
use crate::text::{
    chars_of, padded, push_padded, push_str, safe_range_token, safe_token, sanitize, sanitized,
    string_of,
};

verus! {

/// An in-memory document: `name` only serves to name its staged copy.
pub struct PdfIn {
    pub name: String,
    pub data: Vec<u8>,
}

/// The sources of a merge: all paths, or all in-memory documents.
pub enum Inputs {
    Paths(Vec<String>),
    Bytes(Vec<PdfIn>),
}

/// The source of a compression: a path, or an in-memory document.
pub enum InputOne {
    Path(String),
    Bytes(PdfIn),
}

/// The staged file name of the `i`-th in-memory source: a three-digit ordinal,
/// which keeps names unique and in order, then the sanitized name.
pub open spec fn staged_name(i: nat, name: Seq<char>) -> Seq<char> {
    padded(i, 3) + seq!['_'] + sanitized(name)
}

/// The staged file names of in-memory merge sources, in order.
pub fn staged_names(items: &Vec<PdfIn>) -> (r: Vec<String>)
    ensures
        r.len() == items.len(),
        forall|k: int| 0 <= k < r.len() ==> #[trigger] r@[k]@ == staged_name(k as nat, items@[k].name@),
{
    let mut out: Vec<String> = Vec::new();
    let mut i: usize = 0;
    while i < items.len()
        invariant
            i <= items.len(),
            out.len() == i,
            forall|k: int| 0 <= k < i ==> #[trigger] out@[k]@ == staged_name(k as nat, items@[k].name@),
        decreases items.len() - i,
    {
        let mut v: Vec<char> = Vec::new();
        push_padded(&mut v, i as u64, 3);
        v.push('_');
        let s = sanitize(&items[i].name);
        push_str(&mut v, s.as_str());
        assert(v@ =~= staged_name(i as nat, items@[i as int].name@));
        out.push(string_of(&v));
        i = i + 1;
    }
    out
}

/// The staged file name of a single in-memory source.
pub fn staged_name_one(item: &PdfIn) -> (r: String)
    ensures
        r@ == sanitized(item.name@),
{
    sanitize(&item.name)
}

/// A merge needs at least two sources.
pub open spec fn merge_count_ok(n: nat) -> bool {
    n >= 2
}

/// Rejects a merge of fewer than two sources, before anything is staged.
pub fn check_merge_count(n: usize) -> (r: Result<(), OpError>)
    ensures
        r is Ok <==> merge_count_ok(n as nat),
        r is Err ==> r == Err::<(), OpError>(
            OpError::InvalidInput(InputProblem::TooFewSources { given: n, needed: 2 }),
        ),
{
    if n < 2 {
        Err(OpError::InvalidInput(InputProblem::TooFewSources { given: n, needed: 2 }))
    } else {
        Ok(())
    }
}

/// The merge decision: too few sources or an output that is one of the inputs
/// is rejected; otherwise the one invocation that concatenates all inputs.
pub open spec fn merge_plan(
    paths: Seq<String>,
    canon_inputs: Seq<String>,
    canon_output: Seq<char>,
    output: Seq<char>,
) -> Result<Seq<Seq<char>>, ()> {
    if !merge_count_ok(paths.len()) || collides(canon_inputs, canon_output) {
        Err(())
    } else {
        Ok(merge_args(views(paths), output))
    }
}

/// Checks a merge and builds its invocation. `paths` are the inputs as the tool
/// will read them (staged copies for in-memory sources), `canon_inputs` their
/// canonical forms.
pub fn plan_merge(
    paths: &Vec<String>,
    canon_inputs: &Vec<String>,
    canon_output: &String,
    output: &String,
) -> (r: Result<Vec<String>, OpError>)
    requires
        paths.len() == canon_inputs.len(),
    ensures
        match merge_plan(paths@, canon_inputs@, canon_output@, output@) {
            Ok(a) => r matches Ok(v) && views(v@) == a,
            Err(_) => r is Err,
        },
        !merge_count_ok(paths.len() as nat) ==> r == Err::<Vec<String>, OpError>(
            OpError::InvalidInput(InputProblem::TooFewSources { given: paths.len(), needed: 2 }),
        ),
        merge_count_ok(paths.len() as nat) && collides(canon_inputs@, canon_output@) ==> exists|
            i: int,
        |
            0 <= i < paths.len() && canon_inputs@[i]@ == canon_output@ && (forall|j: int|
                0 <= j < i ==> canon_inputs@[j]@ != canon_output@) && r == Err::<
                Vec<String>,
                OpError,
            >(OpError::InvalidInput(InputProblem::OutputIsInput { input: paths@[i] })),
{
    check_merge_count(paths.len())?;
    assert_output_not_in_inputs(paths, canon_inputs, canon_output)?;
    Ok(build_args_merge_paths(paths, output))
}

/// The compression decision: an output that is the input is rejected;
/// otherwise the preset's first attempt.
pub open spec fn compress_plan(p: CompressPreset, canon_input: Seq<char>, canon_output: Seq<char>) -> Result<Attempt, ()> {
    if canon_input == canon_output {
        Err(())
    } else {
        Ok(first_attempt(p))
    }
}

/// Checks a compression and picks its first attempt.
pub fn plan_compress(
    preset: CompressPreset,
    input: &String,
    canon_input: &String,
    canon_output: &String,
) -> (r: Result<Attempt, OpError>)
    ensures
        match compress_plan(preset, canon_input@, canon_output@) {
            Ok(a) => r == Ok::<Attempt, OpError>(a),
            Err(_) => r == Err::<Attempt, OpError>(
                OpError::InvalidInput(InputProblem::OutputIsInput { input: *input }),
            ),
        },
{
    assert_output_not_same(input, canon_input, canon_output)?;
    Ok(compress_start(preset))
}

/// Whatever the sources, a merge or compression whose output is canonically one
/// of its inputs is rejected before any tool runs: no invocation is planned.
pub proof fn lemma_output_collision_rejected(
    paths: Seq<String>,
    canon_inputs: Seq<String>,
    canon_output: Seq<char>,
    output: Seq<char>,
    p: CompressPreset,
    canon_input: Seq<char>,
)
    ensures
        collides(canon_inputs, canon_output) ==> merge_plan(
            paths,
            canon_inputs,
            canon_output,
            output,
        ) is Err,
        canon_input == canon_output ==> compress_plan(p, canon_input, canon_output) is Err,
{
}

/// A merge of zero or one source is always rejected, whatever the output.
pub proof fn lemma_merge_needs_two(
    paths: Seq<String>,
    canon_inputs: Seq<String>,
    canon_output: Seq<char>,
    output: Seq<char>,
)
    requires
        paths.len() < 2,
    ensures
        !merge_count_ok(paths.len()),
        merge_plan(paths, canon_inputs, canon_output, output) is Err,
{
}

/// The output of the `k`-th range (0-based):
/// `out_dir/split_<two-digit 1-based ordinal>_<safe token>.pdf`.
pub open spec fn split_output(out_dir: Seq<char>, k: nat, range: Seq<char>) -> Seq<char> {
    out_dir + "/split_"@ + padded(k + 1, 2) + seq!['_'] + safe_token(range) + ".pdf"@
}

/// The output file of the `k`-th range.
pub fn split_output_path(out_dir: &String, k: usize, range: &String) -> (r: String)
    requires
        k < usize::MAX,
    ensures
        r@ == split_output(out_dir@, k as nat, range@),
{
    let mut v = chars_of(out_dir);
    push_str(&mut v, "/split_");
    push_padded(&mut v, k as u64 + 1, 2);
    v.push('_');
    let t = safe_range_token(range);
    push_str(&mut v, t.as_str());
    push_str(&mut v, ".pdf");
    string_of(&v)
}

/// One range of a split: what it extracts, where to, and the invocation.
pub struct SplitJob {
    pub range: String,
    pub output: String,
    pub args: Vec<String>,
}

/// Whether `job` is the `k`-th job of splitting `input` into `out_dir`.
pub open spec fn is_split_job(job: SplitJob, input: Seq<char>, out_dir: Seq<char>, k: nat, range: Seq<char>) -> bool {
    &&& job.range@ == range
    &&& job.output@ == split_output(out_dir, k, range)
    &&& views(job.args@) == split_args(input, range, job.output@)
}

/// Plans a split: one independent extraction per range, in the order given.
/// An empty list of ranges is rejected.
pub fn plan_split(input: &String, ranges: &Vec<String>, out_dir: &String) -> (r: Result<
    Vec<SplitJob>,
    OpError,
>)
    ensures
        ranges.len() == 0 <==> r is Err,
        r is Err ==> r == Err::<Vec<SplitJob>, OpError>(OpError::InvalidInput(InputProblem::NoRanges)),
        r matches Ok(jobs) ==> jobs.len() == ranges.len() && forall|k: int|
            0 <= k < jobs.len() ==> is_split_job(#[trigger] jobs@[k], input@, out_dir@, k as nat, ranges@[k]@),
{
    if ranges.len() == 0 {
        return Err(OpError::InvalidInput(InputProblem::NoRanges));
    }
    let mut jobs: Vec<SplitJob> = Vec::new();
    let mut i: usize = 0;
    while i < ranges.len()
        invariant
            i <= ranges.len(),
            jobs.len() == i,
            forall|k: int|
                0 <= k < i ==> is_split_job(#[trigger] jobs@[k], input@, out_dir@, k as nat, ranges@[k]@),
        decreases ranges.len() - i,
    {
        let output = split_output_path(out_dir, i, &ranges[i]);
        let args = build_args_split(input, &ranges[i], &output);
        jobs.push(SplitJob { range: ranges[i].clone(), output, args });
        i = i + 1;
    }
    Ok(jobs)
}

/// What a split does after a job ended.
pub enum SplitStep {
    /// Run the job with this index.
    Run(usize),
    /// Every job succeeded; the outputs, in order.
    Finished(Vec<String>),
    /// The job for `range` failed; later ranges are not run and the outputs of
    /// earlier ones stay on disk.
    Failed { range: String, error: OpError },
}

pub open spec fn split_outputs(jobs: Seq<SplitJob>) -> Seq<Seq<char>> {
    jobs.map_values(|j: SplitJob| j.output@)
}

/// What follows job `k`, in the abstract.
pub enum SplitMove {
    Next(nat),
    Finish,
    Stop { range: Seq<char>, error: OpError },
}

/// The move after job `k` ended with `result`.
pub open spec fn split_step(jobs: Seq<SplitJob>, k: nat, result: Result<(), OpError>) -> SplitMove {
    match result {
        Err(e) => SplitMove::Stop { range: jobs[k as int].range@, error: e },
        Ok(()) => if k + 1 < jobs.len() {
            SplitMove::Next(k + 1)
        } else {
            SplitMove::Finish
        },
    }
}

/// Whether the exec step `r` carries out the move `m`.
pub open spec fn carries_out(r: SplitStep, m: SplitMove, jobs: Seq<SplitJob>) -> bool {
    match (m, r) {
        (SplitMove::Next(n), SplitStep::Run(i)) => i == n,
        (SplitMove::Finish, SplitStep::Finished(outs)) => views(outs@) == split_outputs(jobs),
        (SplitMove::Stop { range, error }, SplitStep::Failed { range: r2, error: e2 }) => r2@ == range
            && e2 == error,
        _ => false,
    }
}

/// Decides what follows job `k`: the next job, the list of outputs after the
/// last, or, on the first failure, a report naming the failed range.
pub fn split_next(jobs: &Vec<SplitJob>, k: usize, result: Result<(), OpError>) -> (r: SplitStep)
    requires
        k < jobs.len(),
    ensures
        carries_out(r, split_step(jobs@, k as nat, result), jobs@),
{
    match result {
        Err(e) => SplitStep::Failed { range: jobs[k].range.clone(), error: e },
        Ok(()) => {
            if k + 1 < jobs.len() {
                SplitStep::Run(k + 1)
            } else {
                let mut outs: Vec<String> = Vec::new();
                let mut i: usize = 0;
                while i < jobs.len()
                    invariant
                        i <= jobs.len(),
                        views(outs@) == split_outputs(jobs@).subrange(0, i as int),
                    decreases jobs.len() - i,
                {
                    let ghost before = outs@;
                    outs.push(jobs[i].output.clone());
                    assert(split_outputs(jobs@)[i as int] == jobs@[i as int].output@);
                    assert(views(outs@) =~= views(before).push(jobs@[i as int].output@));
                    i = i + 1;
                    assert(views(outs@) =~= split_outputs(jobs@).subrange(0, i as int));
                }
                assert(split_outputs(jobs@).subrange(0, i as int) =~= split_outputs(jobs@));
                SplitStep::Finished(outs)
            }
        },
    }
}

/// Splitting stops at the first failing range and reports that range; nothing
/// after it runs, and nothing is undone. After a success the next range runs,
/// and only after the last one does the split finish.
pub proof fn lemma_split_stops_at_failure(jobs: Seq<SplitJob>, k: nat, e: OpError)
    requires
        k < jobs.len(),
    ensures
        split_step(jobs, k, Err(e)) == (SplitMove::Stop { range: jobs[k as int].range@, error: e }),
        k + 1 < jobs.len() ==> split_step(jobs, k, Ok(())) == SplitMove::Next(k + 1),
        k + 1 == jobs.len() ==> split_step(jobs, k, Ok(())) is Finish,
{
}

} // verus!
