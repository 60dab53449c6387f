use pdf_toolkit::args::{build_args_lossless, build_args_merge_paths, build_args_split};
use pdf_toolkit::compress::{
    attempt_args, build_args_lossy, compress_next, compress_start, Attempt, CompressPreset,
    CompressStep,
};
use pdf_toolkit::error::{InputProblem, OpError};
use pdf_toolkit::guard::{assert_output_not_in_inputs, assert_output_not_same};
use pdf_toolkit::ops::{
    check_merge_count, plan_compress, plan_merge, plan_split, split_next, split_output_path,
    staged_name_one, staged_names, PdfIn, SplitStep,
};
use pdf_toolkit::text::{safe_range_token, sanitize};

fn s(x: &str) -> String {
    x.to_string()
}

fn strings(v: &[&str]) -> Vec<String> {
    v.iter().map(|x| x.to_string()).collect()
}

#[test]
fn sanitize_replaces_forbidden_characters() {
    assert_eq!(sanitize("a/b\\c:d*e?f\"g<h>i|j.pdf"), "a_b_c_d_e_f_g_h_i_j.pdf");
    assert_eq!(sanitize("plain name.pdf"), "plain name.pdf");
    assert_eq!(sanitize(""), "");
}

#[test]
fn staged_names_are_ordinal_and_sanitized() {
    let items = vec![
        PdfIn { name: s("a.pdf"), data: vec![1] },
        PdfIn { name: s("x/y.pdf"), data: vec![2] },
    ];
    assert_eq!(staged_names(&items), strings(&["000_a.pdf", "001_x_y.pdf"]));
    assert_eq!(staged_name_one(&items[1]), "x_y.pdf");
    let many: Vec<PdfIn> = (0..12).map(|_| PdfIn { name: s("d.pdf"), data: vec![] }).collect();
    assert_eq!(staged_names(&many)[11], "011_d.pdf");
}

#[test]
fn merge_args_take_every_page_in_order() {
    let args = build_args_merge_paths(&strings(&["a.pdf", "b.pdf", "c.pdf"]), &s("out.pdf"));
    assert_eq!(
        args,
        strings(&[
            "--empty", "--linearize", "--pages", "a.pdf", "1-z", "b.pdf", "1-z", "c.pdf", "1-z", "--",
            "out.pdf"
        ])
    );
}

#[test]
fn merge_of_fewer_than_two_is_invalid() {
    for n in 0..2usize {
        let paths: Vec<String> = (0..n).map(|i| format!("{i}.pdf")).collect();
        let r = plan_merge(&paths, &paths, &s("/abs/out.pdf"), &s("out.pdf"));
        assert!(matches!(
            r,
            Err(OpError::InvalidInput(InputProblem::TooFewSources { given, needed: 2 })) if given == n
        ));
        assert!(check_merge_count(n).is_err());
    }
    assert!(check_merge_count(2).is_ok());
}

#[test]
fn merge_onto_an_input_is_rejected() {
    let paths = strings(&["a.pdf", "b.pdf"]);
    let canon = strings(&["/d/a.pdf", "/d/b.pdf"]);
    let r = plan_merge(&paths, &canon, &s("/d/b.pdf"), &s("b.pdf"));
    assert!(matches!(
        r,
        Err(OpError::InvalidInput(InputProblem::OutputIsInput { input })) if input == "b.pdf"
    ));
    let ok = plan_merge(&paths, &canon, &s("/d/out.pdf"), &s("out.pdf")).ok().expect("planned");
    assert_eq!(
        ok,
        strings(&["--empty", "--linearize", "--pages", "a.pdf", "1-z", "b.pdf", "1-z", "--", "out.pdf"])
    );
    assert!(assert_output_not_in_inputs(&paths, &canon, &s("/d/c.pdf")).is_ok());
}

#[test]
fn compress_onto_its_input_is_rejected() {
    assert!(matches!(
        plan_compress(CompressPreset::Tiny, &s("in.pdf"), &s("/d/in.pdf"), &s("/d/in.pdf")),
        Err(OpError::InvalidInput(InputProblem::OutputIsInput { input })) if input == "in.pdf"
    ));
    assert!(assert_output_not_same(&s("in.pdf"), &s("/d/in.pdf"), &s("/d/out.pdf")).is_ok());
    assert!(matches!(
        plan_compress(CompressPreset::Tiny, &s("in.pdf"), &s("/d/in.pdf"), &s("/d/out.pdf")),
        Ok(Attempt::Lossy)
    ));
    assert!(matches!(
        plan_compress(CompressPreset::Lossless, &s("in.pdf"), &s("/d/in.pdf"), &s("/d/out.pdf")),
        Ok(Attempt::Lossless)
    ));
}

#[test]
fn lossless_preset_never_runs_the_raster_tool() {
    assert_eq!(compress_start(CompressPreset::Lossless), Attempt::Lossless);
    assert!(matches!(
        compress_next(CompressPreset::Lossless, Attempt::Lossless, Ok(())),
        CompressStep::Finished { fell_back: false }
    ));
    assert!(matches!(
        compress_next(
            CompressPreset::Lossless,
            Attempt::Lossless,
            Err(OpError::ToolExecutionFailed { diagnostics: s("x") })
        ),
        CompressStep::Failed(OpError::ToolExecutionFailed { .. })
    ));
}

#[test]
fn tiny_falls_back_when_raster_tool_is_absent() {
    assert_eq!(compress_start(CompressPreset::Tiny), Attempt::Lossy);
    let next = compress_next(
        CompressPreset::Tiny,
        Attempt::Lossy,
        Err(OpError::ToolNotFound { tool: s("gs"), looked_for: vec![s("R/bin/gswin64c.exe")] }),
    );
    assert!(matches!(next, CompressStep::Run(Attempt::Lossless)));
    assert!(matches!(
        compress_next(CompressPreset::Tiny, Attempt::Lossless, Ok(())),
        CompressStep::Finished { fell_back: true }
    ));
    assert!(matches!(
        compress_next(CompressPreset::Small, Attempt::Lossy, Ok(())),
        CompressStep::Finished { fell_back: false }
    ));
}

#[test]
fn lossy_args_follow_the_preset() {
    let tiny = build_args_lossy(CompressPreset::Tiny, &s("in.pdf"), &s("out.pdf"));
    assert_eq!(tiny.len(), 21);
    assert_eq!(tiny[0], "-sDEVICE=pdfwrite");
    assert_eq!(tiny[1], "-dCompatibilityLevel=1.4");
    assert_eq!(tiny[2], "-dDetectDuplicateImages=true");
    assert_eq!(tiny[15], "-sOutputFile=out.pdf");
    assert_eq!(tiny[16], "-dPDFSETTINGS=/screen");
    assert_eq!(tiny[17], "-dColorImageResolution=72");
    assert_eq!(tiny[18], "-dGrayImageResolution=72");
    assert_eq!(tiny[19], "-dMonoImageResolution=72");
    assert_eq!(tiny[20], "in.pdf");
    let small = build_args_lossy(CompressPreset::Small, &s("i"), &s("o"));
    assert_eq!(small[16], "-dPDFSETTINGS=/ebook");
    assert_eq!(small[17], "-dColorImageResolution=150");
    let smaller = build_args_lossy(CompressPreset::Smaller, &s("i"), &s("o"));
    assert_eq!(smaller[16], "-dPDFSETTINGS=/screen");
    assert_eq!(smaller[19], "-dMonoImageResolution=96");
    assert!(tiny.contains(&s("-dMonoImageDownsampleType=/Subsample")));
    assert!(tiny.contains(&s("-dColorImageDownsampleType=/Bicubic")));
    assert!(tiny.contains(&s("-dBATCH")));
}

#[test]
fn lossless_args_compress_and_linearize() {
    assert_eq!(
        build_args_lossless(&s("in.pdf"), &s("out.pdf")),
        strings(&[
            "--object-streams=generate",
            "--stream-data=compress",
            "--recompress-flate",
            "--compress-strings=y",
            "--linearize",
            "in.pdf",
            "out.pdf"
        ])
    );
    assert_eq!(
        attempt_args(CompressPreset::Tiny, Attempt::Lossless, &s("a"), &s("b")),
        build_args_lossless(&s("a"), &s("b"))
    );
}

#[test]
fn split_three_ranges() {
    let ranges = strings(&["1-3", "8", "10-12"]);
    let jobs = plan_split(&s("in.pdf"), &ranges, &s("out")).ok().expect("planned");
    let outs: Vec<String> = jobs.iter().map(|j| j.output.clone()).collect();
    assert_eq!(
        outs,
        strings(&["out/split_01_1-3.pdf", "out/split_02_8.pdf", "out/split_03_10-12.pdf"])
    );
    assert_eq!(
        jobs[1].args,
        strings(&["in.pdf", "--pages", "in.pdf", "8", "--", "out/split_02_8.pdf"])
    );
    assert_eq!(jobs[0].args, build_args_split(&s("in.pdf"), &s("1-3"), &s("out/split_01_1-3.pdf")));
    assert!(matches!(split_next(&jobs, 0, Ok(())), SplitStep::Run(1)));
    match split_next(&jobs, 1, Err(OpError::ToolExecutionFailed { diagnostics: s("bad") })) {
        SplitStep::Failed { range, .. } => assert_eq!(range, "8"),
        _ => panic!("expected a failure naming the range"),
    }
    match split_next(&jobs, 2, Ok(())) {
        SplitStep::Finished(v) => assert_eq!(v, outs),
        _ => panic!("expected the outputs"),
    }
}

#[test]
fn split_without_ranges_is_invalid() {
    assert!(matches!(
        plan_split(&s("in.pdf"), &vec![], &s("out")),
        Err(OpError::InvalidInput(InputProblem::NoRanges))
    ));
}

#[test]
fn range_tokens_are_made_safe() {
    assert_eq!(safe_range_token("1, 3,5"), "1_3_5");
    assert_eq!(safe_range_token("10-12"), "10-12");
    assert_eq!(split_output_path(&s("d"), 8, &s("2 - 4")), "d/split_09_2-4.pdf");
    assert_eq!(split_output_path(&s("d"), 99, &s("7")), "d/split_100_7.pdf");
}
