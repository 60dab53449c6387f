//! Compression: preset-graduated lossy rewriting with the raster tool, falling
//! back to lossless recompression when the raster tool is missing or fails.
use vstd::prelude::*;
use crate::args::{build_args_lossless, lossless_args, views};
use crate::error::OpError;
use crate::text::{chars_of, decimal, lit, push_decimal, string_of};

verus! {

/// How hard to compress.
#[derive(Clone, Copy, Debug, PartialEq, Eq, Structural)]
pub enum CompressPreset {
    Lossless,
    Small,
    Smaller,
    Tiny,
}

/// The image resolution, in dots per inch, of a lossy preset.
pub open spec fn resolution(p: CompressPreset) -> nat {
    match p {
        CompressPreset::Small => 150,
        CompressPreset::Smaller => 96,
        _ => 72,
    }
}

/// The raster tool's settings profile for a lossy preset.
pub open spec fn settings_flag(p: CompressPreset) -> Seq<char> {
    match p {
        CompressPreset::Small => "-dPDFSETTINGS=/ebook"@,
        _ => "-dPDFSETTINGS=/screen"@,
    }
}

/// The fixed part of every raster-tool invocation: PDF output device, fixed
/// compatibility level, duplicate-image detection, image encoding and
/// downsampling (bicubic for colour and grey, subsampling for monochrome), and
/// batch mode without pauses or chatter.
pub open spec fn lossy_base_flags() -> Seq<Seq<char>> {
    seq![
        "-sDEVICE=pdfwrite"@,
        "-dCompatibilityLevel=1.4"@,
        "-dDetectDuplicateImages=true"@,
        "-dEncodeColorImages=true"@,
        "-dEncodeGrayImages=true"@,
        "-dEncodeMonoImages=true"@,
        "-dDownsampleColorImages=true"@,
        "-dDownsampleGrayImages=true"@,
        "-dDownsampleMonoImages=true"@,
        "-dColorImageDownsampleType=/Bicubic"@,
        "-dGrayImageDownsampleType=/Bicubic"@,
        "-dMonoImageDownsampleType=/Subsample"@,
        "-dNOPAUSE"@,
        "-dQUIET"@,
        "-dBATCH"@,
    ]
}

/// The raster-tool invocation for a lossy preset.
pub open spec fn lossy_args(p: CompressPreset, input: Seq<char>, output: Seq<char>) -> Seq<
    Seq<char>,
> {
    let dpi = decimal(resolution(p));
    lossy_base_flags() + seq![
        "-sOutputFile="@ + output,
        settings_flag(p),
        "-dColorImageResolution="@ + dpi,
        "-dGrayImageResolution="@ + dpi,
        "-dMonoImageResolution="@ + dpi,
        input,
    ]
}

/// The flag that asks the raster tool for its version.
pub open spec fn lossy_probe_args() -> Seq<Seq<char>> {
    seq!["-v"@]
}

fn flag(prefix: &str, value: &Vec<char>) -> (r: String)
    ensures
        r@ == prefix@ + value@,
{
    let mut v = chars_of(prefix);
    let mut w = value.clone();
    v.append(&mut w);
    string_of(&v)
}

/// Builds the raster-tool invocation for a lossy preset.
pub fn build_args_lossy(preset: CompressPreset, input: &String, output: &String) -> (r: Vec<String>)
    requires
        preset != CompressPreset::Lossless,
    ensures
        views(r@) == lossy_args(preset, input@, output@),
{
    let mut args: Vec<String> = vec![
        lit("-sDEVICE=pdfwrite"),
        lit("-dCompatibilityLevel=1.4"),
        lit("-dDetectDuplicateImages=true"),
        lit("-dEncodeColorImages=true"),
        lit("-dEncodeGrayImages=true"),
        lit("-dEncodeMonoImages=true"),
        lit("-dDownsampleColorImages=true"),
        lit("-dDownsampleGrayImages=true"),
        lit("-dDownsampleMonoImages=true"),
        lit("-dColorImageDownsampleType=/Bicubic"),
        lit("-dGrayImageDownsampleType=/Bicubic"),
        lit("-dMonoImageDownsampleType=/Subsample"),
        lit("-dNOPAUSE"),
        lit("-dQUIET"),
        lit("-dBATCH"),
    ];
    assert(views(args@) =~= lossy_base_flags());
    let ghost base = args@;
    let out_chars = chars_of(output);
    args.push(flag("-sOutputFile=", &out_chars));
    let (settings, dpi): (String, u64) = match preset {
        CompressPreset::Small => (lit("-dPDFSETTINGS=/ebook"), 150),
        CompressPreset::Smaller => (lit("-dPDFSETTINGS=/screen"), 96),
        _ => (lit("-dPDFSETTINGS=/screen"), 72),
    };
    args.push(settings);
    let mut digits: Vec<char> = Vec::new();
    push_decimal(&mut digits, dpi);
    assert(digits@ =~= decimal(resolution(preset)));
    args.push(flag("-dColorImageResolution=", &digits));
    args.push(flag("-dGrayImageResolution=", &digits));
    args.push(flag("-dMonoImageResolution=", &digits));
    args.push(input.clone());
    assert(views(args@) =~= lossy_args(preset, input@, output@));
    args
}

/// Builds the version probe of the raster tool.
pub fn build_args_lossy_probe() -> (r: Vec<String>)
    ensures
        views(r@) == lossy_probe_args(),
{
    let r = vec![lit("-v")];
    assert(views(r@) =~= lossy_probe_args());
    r
}

/// Which tool an attempt runs.
#[derive(Clone, Copy, Debug, PartialEq, Eq, Structural)]
pub enum Attempt {
    /// The raster-rewrite tool, with the preset's downsampling.
    Lossy,
    /// The lossless recompression tool.
    Lossless,
}

/// What to do after an attempt.
pub enum CompressStep {
    Run(Attempt),
    /// Done; `fell_back` tells whether the lossy attempt failed and the lossless
    /// path produced the output.
    Finished { fell_back: bool },
    Failed(OpError),
}

/// The first attempt for a preset: lossless only for the lossless preset.
pub open spec fn first_attempt(p: CompressPreset) -> Attempt {
    if p == CompressPreset::Lossless {
        Attempt::Lossless
    } else {
        Attempt::Lossy
    }
}

/// The step after an attempt ended with `result`. A failed lossy attempt is
/// never reported: it turns into a lossless attempt.
pub open spec fn next_step(p: CompressPreset, a: Attempt, result: Result<(), OpError>) -> CompressStep {
    match (a, result) {
        (Attempt::Lossy, Ok(())) => CompressStep::Finished { fell_back: false },
        (Attempt::Lossy, Err(_)) => CompressStep::Run(Attempt::Lossless),
        (Attempt::Lossless, Ok(())) => CompressStep::Finished {
            fell_back: p != CompressPreset::Lossless,
        },
        (Attempt::Lossless, Err(e)) => CompressStep::Failed(e),
    }
}

/// The first attempt for a preset.
pub fn compress_start(preset: CompressPreset) -> (r: Attempt)
    ensures
        r == first_attempt(preset),
{
    if preset == CompressPreset::Lossless {
        Attempt::Lossless
    } else {
        Attempt::Lossy
    }
}

/// The step after an attempt ended.
pub fn compress_next(preset: CompressPreset, attempt: Attempt, result: Result<(), OpError>) -> (r:
    CompressStep)
    ensures
        r == next_step(preset, attempt, result),
{
    match attempt {
        Attempt::Lossy => match result {
            Ok(()) => CompressStep::Finished { fell_back: false },
            Err(_) => CompressStep::Run(Attempt::Lossless),
        },
        Attempt::Lossless => match result {
            Ok(()) => CompressStep::Finished { fell_back: preset != CompressPreset::Lossless },
            Err(e) => CompressStep::Failed(e),
        },
    }
}

/// The arguments of an attempt on `input`, writing `output`.
pub fn attempt_args(preset: CompressPreset, attempt: Attempt, input: &String, output: &String) -> (r:
    Vec<String>)
    requires
        attempt == Attempt::Lossy ==> preset != CompressPreset::Lossless,
    ensures
        attempt == Attempt::Lossless ==> views(r@) == lossless_args(input@, output@),
        attempt == Attempt::Lossy ==> views(r@) == lossy_args(preset, input@, output@),
{
    match attempt {
        Attempt::Lossless => build_args_lossless(input, output),
        Attempt::Lossy => build_args_lossy(preset, input, output),
    }
}

/// Under the lossless preset the raster tool is never run: the first attempt is
/// lossless, and no outcome of a lossless attempt leads to a lossy one.
pub proof fn lemma_lossless_never_rasterizes(result: Result<(), OpError>)
    ensures
        first_attempt(CompressPreset::Lossless) == Attempt::Lossless,
        !(next_step(CompressPreset::Lossless, Attempt::Lossless, result) matches CompressStep::Run(
            Attempt::Lossy,
        )),
{
}

/// A lossy preset still succeeds when the raster tool is missing or fails,
/// whatever the failure: the next attempt is lossless, and a successful lossless
/// attempt finishes with the fallback recorded.
pub proof fn lemma_lossy_failure_falls_back(p: CompressPreset, e: OpError)
    requires
        p != CompressPreset::Lossless,
    ensures
        first_attempt(p) == Attempt::Lossy,
        next_step(p, Attempt::Lossy, Err(e)) == CompressStep::Run(Attempt::Lossless),
        next_step(p, Attempt::Lossless, Ok(())) == (CompressStep::Finished { fell_back: true }),
{
}

} // verus!
