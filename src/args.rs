//! Argument vectors for the lossless page-recompression tool.
use vstd::prelude::*;
use crate::text::lit;

verus! {

/// The character sequences of a list of strings.
pub open spec fn views(v: Seq<String>) -> Seq<Seq<char>> {
    v.map_values(|s: String| s@)
}

/// Each input followed by the page range that selects all of its pages.
pub open spec fn all_pages_of(paths: Seq<Seq<char>>) -> Seq<Seq<char>>
    decreases paths.len(),
{
    if paths.len() == 0 {
        Seq::empty()
    } else {
        all_pages_of(paths.drop_last()) + seq![paths.last(), "1-z"@]
    }
}

/// The invocation that concatenates every page of each input, in order, into
/// a fresh, linearized output document.
pub open spec fn merge_args(paths: Seq<Seq<char>>, output: Seq<char>) -> Seq<Seq<char>> {
    seq!["--empty"@, "--linearize"@, "--pages"@] + all_pages_of(paths) + seq!["--"@, output]
}

/// The invocation that extracts one page range of `input` into `output`.
pub open spec fn split_args(input: Seq<char>, range: Seq<char>, output: Seq<char>) -> Seq<Seq<char>> {
    seq![input, "--pages"@, input, range, "--"@, output]
}

/// The lossless recompression invocation: object streams, stream, flate and
/// string compression, and linearization.
pub open spec fn lossless_args(input: Seq<char>, output: Seq<char>) -> Seq<Seq<char>> {
    seq![
        "--object-streams=generate"@,
        "--stream-data=compress"@,
        "--recompress-flate"@,
        "--compress-strings=y"@,
        "--linearize"@,
        input,
        output,
    ]
}

/// The flag that asks the lossless tool for its version.
pub open spec fn lossless_probe_args() -> Seq<Seq<char>> {
    seq!["--version"@]
}

/// Builds the merge invocation for the given inputs and output.
pub fn build_args_merge_paths(paths: &Vec<String>, output: &String) -> (r: Vec<String>)
    ensures
        views(r@) == merge_args(views(paths@), output@),
{
    let mut args: Vec<String> = vec![lit("--empty"), lit("--linearize"), lit("--pages")];
    let mut i: usize = 0;
    while i < paths.len()
        invariant
            i <= paths.len(),
            views(args@) == seq!["--empty"@, "--linearize"@, "--pages"@] + all_pages_of(
                views(paths@.subrange(0, i as int)),
            ),
        decreases paths.len() - i,
    {
        let ghost before = args@;
        args.push(paths[i].clone());
        args.push(lit("1-z"));
        proof {
            let ps = views(paths@.subrange(0, i + 1));
            assert(ps.drop_last() =~= views(paths@.subrange(0, i as int)));
            assert(views(args@) =~= views(before) + seq![paths@[i as int]@, "1-z"@]);
        }
        i = i + 1;
    }
    assert(paths@.subrange(0, i as int) =~= paths@);
    let ghost before = args@;
    args.push(lit("--"));
    args.push(output.clone());
    assert(views(args@) =~= views(before) + seq!["--"@, output@]);
    args
}

/// Builds the invocation that extracts `range` of `input` into `output`.
pub fn build_args_split(input: &String, range: &String, output: &String) -> (r: Vec<String>)
    ensures
        views(r@) == split_args(input@, range@, output@),
{
    let r = vec![input.clone(), lit("--pages"), input.clone(), range.clone(), lit("--"), output.clone()];
    assert(views(r@) =~= split_args(input@, range@, output@));
    r
}

/// Builds the lossless recompression invocation.
pub fn build_args_lossless(input: &String, output: &String) -> (r: Vec<String>)
    ensures
        views(r@) == lossless_args(input@, output@),
{
    let r = vec![
        lit("--object-streams=generate"),
        lit("--stream-data=compress"),
        lit("--recompress-flate"),
        lit("--compress-strings=y"),
        lit("--linearize"),
        input.clone(),
        output.clone(),
    ];
    assert(views(r@) =~= lossless_args(input@, output@));
    r
}

/// Builds the version probe of the lossless tool.
pub fn build_args_lossless_probe() -> (r: Vec<String>)
    ensures
        views(r@) == lossless_probe_args(),
{
    let r = vec![lit("--version")];
    assert(views(r@) =~= lossless_probe_args());
    r
}

} // verus!
