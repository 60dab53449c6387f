use pdf_toolkit::error::OpError;
use pdf_toolkit::locate::{candidates, ghostscript_tool, qpdf_tool, select, sibling_dirs, Probe};
use pdf_toolkit::run::{
    check_run, prepare_run, route_next, route_start, verify_gs, verify_qpdf, QpdfRoute,
    RouteStep, RunOutcome,
};
use pdf_toolkit::text::contains_ascii_ci;

fn s(x: &str) -> String {
    x.to_string()
}

fn missing(n: usize) -> Probe {
    Probe { exe_exists: false, siblings_present: vec![false; n], fonts_present: false }
}

#[test]
fn flat_layout_is_found_with_library_and_font_paths() {
    let gs = ghostscript_tool();
    let cands = candidates(&gs, &vec![s("R")], &vec![vec![]]);
    assert_eq!(cands.len(), 4);
    assert_eq!(cands[0].bin_dir, "R/bin");
    assert_eq!(cands[0].exe, "R/bin/gswin64c.exe");
    assert_eq!(sibling_dirs(&gs, &cands[0]), vec![s("R/lib"), s("R/Resource")]);
    let mut probes: Vec<Probe> = (0..4).map(|_| missing(2)).collect();
    probes[0] = Probe { exe_exists: true, siblings_present: vec![true, true], fonts_present: true };
    let t = select(&gs, &cands, &probes).expect("found");
    assert_eq!(t.bin_dir, "R/bin");
    assert_eq!(t.exe, "R/bin/gswin64c.exe");
    assert_eq!(
        t.env,
        vec![(s("GS_LIB"), s("R/lib;R/Resource")), (s("GS_FONTPATH"), s("R/fonts"))]
    );
}

#[test]
fn font_variable_only_with_fonts_directory() {
    let gs = ghostscript_tool();
    let cands = candidates(&gs, &vec![s("R")], &vec![vec![]]);
    let mut probes: Vec<Probe> = (0..4).map(|_| missing(2)).collect();
    probes[0] = Probe { exe_exists: true, siblings_present: vec![true, true], fonts_present: false };
    let t = select(&gs, &cands, &probes).expect("found");
    assert_eq!(t.env, vec![(s("GS_LIB"), s("R/lib;R/Resource"))]);
}

#[test]
fn missing_sibling_is_never_accepted() {
    let gs = ghostscript_tool();
    let cands = candidates(&gs, &vec![s("R")], &vec![vec![s("gs10")]]);
    let probes: Vec<Probe> = (0..cands.len())
        .map(|_| Probe { exe_exists: true, siblings_present: vec![true, false], fonts_present: true })
        .collect();
    assert!(select(&gs, &cands, &probes).is_none());
}

#[test]
fn versioned_subdirectory_is_found() {
    let gs = ghostscript_tool();
    let cands = candidates(&gs, &vec![s("R")], &vec![vec![s("docs"), s("GS10.02.1")]]);
    assert_eq!(cands.len(), 5);
    assert_eq!(cands[4].layout_root, "R/GS10.02.1");
    assert_eq!(cands[4].exe, "R/GS10.02.1/bin/gswin64c.exe");
    let mut probes: Vec<Probe> = (0..5).map(|_| missing(2)).collect();
    probes[4] = Probe { exe_exists: true, siblings_present: vec![true, true], fonts_present: false };
    let t = select(&gs, &cands, &probes).expect("found");
    assert_eq!(t.bin_dir, "R/GS10.02.1/bin");
    assert_eq!(t.env, vec![(s("GS_LIB"), s("R/GS10.02.1/lib;R/GS10.02.1/Resource"))]);
}

#[test]
fn nested_layouts_come_in_priority_order() {
    let q = qpdf_tool();
    let cands = candidates(&q, &vec![s("dev"), s("res")], &vec![vec![s("other")], vec![s("QPDF-11.9")]]);
    let exes: Vec<String> = cands.iter().map(|c| c.exe.clone()).collect();
    assert_eq!(
        exes,
        vec![
            s("dev/bin/qpdf.exe"),
            s("dev/qpdf/bin/qpdf.exe"),
            s("dev/qpdf/qpdf.exe"),
            s("dev/qpdf.exe"),
            s("res/bin/qpdf.exe"),
            s("res/qpdf/bin/qpdf.exe"),
            s("res/qpdf/qpdf.exe"),
            s("res/qpdf.exe"),
            s("res/QPDF-11.9/bin/qpdf.exe"),
        ]
    );
    let mut probes: Vec<Probe> = (0..cands.len()).map(|_| missing(0)).collect();
    probes[2] = Probe { exe_exists: true, siblings_present: vec![], fonts_present: false };
    probes[8] = Probe { exe_exists: true, siblings_present: vec![], fonts_present: false };
    let t = select(&q, &cands, &probes).expect("found");
    assert_eq!(t.exe, "dev/qpdf/qpdf.exe");
    assert_eq!(t.bin_dir, "dev/qpdf");
    assert!(t.env.is_empty());
}

#[test]
fn nothing_found_when_no_executable() {
    let q = qpdf_tool();
    let cands = candidates(&q, &vec![s("a")], &vec![vec![]]);
    let probes: Vec<Probe> = (0..cands.len()).map(|_| missing(0)).collect();
    assert!(select(&q, &cands, &probes).is_none());
}

#[test]
fn substring_search_ignores_case() {
    assert!(contains_ascii_ci("GPL Ghostscript 10.02.1", "ghostscript"));
    assert!(contains_ascii_ci("qpdf version 11.9.0", "QPDF"));
    assert!(contains_ascii_ci("abc", ""));
    assert!(!contains_ascii_ci("qpd", "qpdf"));
    assert!(!contains_ascii_ci("unrelated tool", "qpdf"));
}

fn exited(success: bool, stdout: &str, stderr: &str) -> RunOutcome {
    RunOutcome::Exited { success, stdout: s(stdout), stderr: s(stderr) }
}

#[test]
fn verification_needs_success_and_identity() {
    assert!(verify_gs(&exited(true, "GPL Ghostscript 10.02.1 (2023-11-01)", "")).is_ok());
    assert!(matches!(
        verify_gs(&exited(true, "some other program", "")),
        Err(OpError::ToolVerificationFailed { .. })
    ));
    assert!(matches!(
        verify_gs(&exited(false, "GPL Ghostscript", "boom")),
        Err(OpError::ToolVerificationFailed { detail, .. }) if detail == "boom"
    ));
    assert!(verify_qpdf(&exited(true, "qpdf version 11.9.0\n", "")).is_ok());
    assert!(matches!(
        verify_qpdf(&RunOutcome::SpawnFailed { detail: s("no such file") }),
        Err(OpError::SpawnFailed { detail }) if detail == "no such file"
    ));
}

#[test]
fn nonzero_exit_is_an_inspectable_result() {
    assert!(check_run(&exited(true, "", "")).is_ok());
    assert!(matches!(
        check_run(&exited(false, "", "bad page range")),
        Err(OpError::ToolExecutionFailed { diagnostics }) if diagnostics == "bad page range"
    ));
    assert!(matches!(
        check_run(&RunOutcome::SpawnFailed { detail: s("denied") }),
        Err(OpError::SpawnFailed { .. })
    ));
}

#[test]
fn run_environment_layers_in_order() {
    let gs = ghostscript_tool();
    let cands = candidates(&gs, &vec![s("R")], &vec![vec![]]);
    let mut probes: Vec<Probe> = (0..4).map(|_| missing(2)).collect();
    probes[0] = Probe { exe_exists: true, siblings_present: vec![true, true], fonts_present: false };
    let t = select(&gs, &cands, &probes).expect("found");
    let inv = prepare_run(&t, vec![s("-v")], &vec![(s("EXTRA"), s("1"))], &s("C:/Windows"));
    assert_eq!(inv.exe, "R/bin/gswin64c.exe");
    assert_eq!(inv.cwd, "R/bin");
    assert_eq!(inv.args, vec![s("-v")]);
    assert_eq!(
        inv.env,
        vec![
            (s("PATH"), s("R/bin;C:/Windows")),
            (s("GS_LIB"), s("R/lib;R/Resource")),
            (s("EXTRA"), s("1")),
        ]
    );
}

#[test]
fn routes_fall_through_in_order() {
    let res = s("res/qpdf-x86_64-pc-windows-msvc.exe");
    assert!(matches!(route_start(true, &res, true), RouteStep::Run(QpdfRoute::DevDirect)));
    assert!(matches!(route_start(false, &res, true), RouteStep::Run(QpdfRoute::ResourceSidecar)));
    assert!(matches!(
        route_start(false, &res, false),
        RouteStep::Fail(OpError::ToolNotFound { tool, looked_for }) if tool == "qpdf" && looked_for == vec![res.clone()]
    ));
    let fail = exited(false, "", "err");
    assert!(matches!(route_next(QpdfRoute::DevDirect, &fail, &res, true), RouteStep::Run(QpdfRoute::ResourceSidecar)));
    assert!(matches!(
        route_next(QpdfRoute::DevDirect, &fail, &res, false),
        RouteStep::Fail(OpError::ToolNotFound { looked_for, .. }) if looked_for == vec![res.clone()]
    ));
    assert!(matches!(route_next(QpdfRoute::ResourceSidecar, &fail, &res, true), RouteStep::Run(QpdfRoute::ResourceDirect)));
    assert!(matches!(
        route_next(QpdfRoute::ResourceDirect, &fail, &res, true),
        RouteStep::Fail(OpError::ToolExecutionFailed { diagnostics }) if diagnostics == "err"
    ));
    assert!(matches!(
        route_next(QpdfRoute::ResourceDirect, &RunOutcome::SpawnFailed { detail: s("x") }, &res, true),
        RouteStep::Fail(OpError::SpawnFailed { .. })
    ));
    assert!(matches!(route_next(QpdfRoute::ResourceSidecar, &exited(true, "", ""), &res, true), RouteStep::Done));
}

#[test]
fn versioned_directory_named_after_ghostscript_is_found() {
    let gs = ghostscript_tool();
    let root = s("src-tauri/binaries/ghostscript");
    let cands = candidates(&gs, &vec![root.clone()], &vec![vec![s("ghostscript-10.05.1"), s("misc")]]);
    assert_eq!(cands.len(), 5);
    let v = "src-tauri/binaries/ghostscript/ghostscript-10.05.1";
    assert_eq!(cands[4].exe, format!("{v}/bin/gswin64c.exe"));
    let mut probes: Vec<Probe> = (0..5).map(|_| missing(2)).collect();
    probes[4] = Probe { exe_exists: true, siblings_present: vec![true, true], fonts_present: false };
    let t = select(&gs, &cands, &probes).expect("found");
    assert_eq!(t.bin_dir, format!("{v}/bin"));
    assert_eq!(t.env, vec![(s("GS_LIB"), format!("{v}/lib;{v}/Resource"))]);
}

#[test]
fn siblings_are_looked_for_beside_the_binary_directory() {
    let gs = ghostscript_tool();
    let cands = candidates(&gs, &vec![s("R")], &vec![vec![]]);
    assert_eq!(cands[2].bin_dir, "R/gs");
    assert_eq!(sibling_dirs(&gs, &cands[2]), vec![s("R/lib"), s("R/Resource")]);
    assert_eq!(cands[3].bin_dir, "R");
    assert_eq!(sibling_dirs(&gs, &cands[3]), vec![s("R/../lib"), s("R/../Resource")]);
    assert_eq!(sibling_dirs(&gs, &cands[1]), vec![s("R/gs/lib"), s("R/gs/Resource")]);
}
