use base64::Engine;
use pdf_toolkit::export::{
    err, export_ok, map_io, ExportAction, ExportInput, ExportReceipt, Exporter, IoFailure,
    IoKind, PickResult, Progress, SignAndExportPayload, SignErrorCode, WriteStage,
};
use pdf_toolkit::payload::{hex_lower, hex_sha256, is_plausible_pdf};

fn s(x: &str) -> String {
    x.to_string()
}

fn pdf_bytes() -> Vec<u8> {
    b"%PDF-1.4\n1 0 obj\n<<>>\nendobj\ntrailer\n<<>>\n%%EOF\n".to_vec()
}

fn b64(bytes: &[u8]) -> String {
    base64::engine::general_purpose::STANDARD.encode(bytes)
}

fn payload(bytes: &[u8], target: Option<&str>, overwrite: Option<bool>) -> SignAndExportPayload {
    SignAndExportPayload {
        pdf_bytes_b64: b64(bytes),
        suggested_name: None,
        target_path: target.map(s),
        overwrite,
    }
}

fn error_code(a: &ExportAction) -> Option<SignErrorCode> {
    match a {
        ExportAction::Finish(Err(e)) => Some(e.code),
        _ => None,
    }
}

#[test]
fn digest_is_lowercase_hex_sha256() {
    assert_eq!(
        hex_sha256(b"abc"),
        "ba7816bf8f01cfea414140de5dae2223b00361a396177a9cb410ff61f20015ad"
    );
    assert_eq!(hex_lower(&[0x00, 0xff, 0x1a]), "00ff1a");
    assert_eq!(hex_lower(&[]), "");
}

#[test]
fn signature_check() {
    assert!(is_plausible_pdf(&pdf_bytes()));
    assert!(!is_plausible_pdf(&b"%PDF-%%EOF"[..7].to_vec()));
    assert!(!is_plausible_pdf(&b"%PDX-1.4 %%EOF".to_vec()));
    assert!(!is_plausible_pdf(&b"%PDF-1.4 no trailer".to_vec()));
    let mut far = pdf_bytes();
    far.extend(std::iter::repeat(b' ').take(5000));
    assert!(!is_plausible_pdf(&far));
    let mut near = pdf_bytes();
    near.extend(std::iter::repeat(b' ').take(4000));
    assert!(is_plausible_pdf(&near));
}

#[test]
fn invalid_base64_is_rejected_before_any_write() {
    let mut e = Exporter::new();
    let p = SignAndExportPayload {
        pdf_bytes_b64: s("not base64!!"),
        suggested_name: None,
        target_path: Some(s("out.pdf")),
        overwrite: None,
    };
    let (events, action) = e.step(ExportInput::Start(p));
    assert_eq!(error_code(&action), Some(SignErrorCode::EInvalidPdf));
    assert_eq!(events.len(), 2);
    assert!(matches!(events[0], Progress::Prepare));
    assert!(matches!(events[1], Progress::Error { code: SignErrorCode::EInvalidPdf, .. }));
    assert!(e.is_idle());
}

#[test]
fn missing_header_is_rejected_before_any_write() {
    let mut e = Exporter::new();
    let (events, action) =
        e.step(ExportInput::Start(payload(b"hello world, no header %%EOF", Some("o.pdf"), None)));
    assert_eq!(error_code(&action), Some(SignErrorCode::EInvalidPdf));
    assert!(!events.iter().any(|ev| matches!(ev, Progress::Write)));
}

#[test]
fn existing_destination_without_overwrite_conflicts() {
    let mut e = Exporter::new();
    let (ev1, a1) = e.step(ExportInput::Start(payload(&pdf_bytes(), Some("d/o.pdf"), Some(false))));
    assert_eq!(ev1.len(), 1);
    assert!(matches!(a1, ExportAction::Probe { ref path } if path == "d/o.pdf"));
    let (ev2, a2) = e.step(ExportInput::Probed {
        dest_exists: true,
        parent: Some(s("d")),
        parent_exists: true,
    });
    assert_eq!(error_code(&a2), Some(SignErrorCode::EExists));
    assert_eq!(ev2.len(), 1);
    assert!(matches!(ev2[0], Progress::Error { code: SignErrorCode::EExists, .. }));
    assert!(e.is_idle());
}

#[test]
fn overwrite_replaces_and_reports_digest() {
    let bytes = pdf_bytes();
    let mut e = Exporter::new();
    e.step(ExportInput::Start(payload(&bytes, Some("d/o.pdf"), Some(true))));
    let (ev, a) = e.step(ExportInput::Probed {
        dest_exists: true,
        parent: Some(s("d")),
        parent_exists: true,
    });
    assert!(matches!(ev[..], [Progress::Write]));
    match a {
        ExportAction::Write { dir, path, data, replace_existing } => {
            assert_eq!(dir, "d");
            assert_eq!(path, "d/o.pdf");
            assert_eq!(data, bytes);
            assert!(replace_existing);
        }
        _ => panic!("expected a write"),
    }
    let (ev, a) = e.step(ExportInput::Written(Ok(())));
    let digest = hex_sha256(&bytes);
    match a {
        ExportAction::Finish(Ok(r)) => {
            assert_eq!(r.path, "d/o.pdf");
            assert_eq!(r.bytes_written, bytes.len());
            assert_eq!(r.sha256, digest);
        }
        _ => panic!("expected success"),
    }
    assert!(matches!(&ev[..], [Progress::Done { path, sha256 }] if path == "d/o.pdf" && *sha256 == digest));
}

#[test]
fn fresh_destination_is_not_replaced() {
    let mut e = Exporter::new();
    e.step(ExportInput::Start(payload(&pdf_bytes(), Some("d/o.pdf"), Some(true))));
    let (_, a) = e.step(ExportInput::Probed { dest_exists: false, parent: Some(s("d")), parent_exists: true });
    assert!(matches!(a, ExportAction::Write { replace_existing: false, .. }));
}

#[test]
fn picker_is_asked_without_target() {
    let mut e = Exporter::new();
    let (_, a) = e.step(ExportInput::Start(payload(&pdf_bytes(), None, None)));
    assert!(matches!(a, ExportAction::Pick { ref suggested_name } if suggested_name == "signed.pdf"));
    let (ev, a) = e.step(ExportInput::Picked(PickResult::Dismissed));
    assert_eq!(error_code(&a), Some(SignErrorCode::ECancelled));
    assert_eq!(ev.len(), 1);

    let (_, _) = e.step(ExportInput::Start(SignAndExportPayload {
        pdf_bytes_b64: b64(&pdf_bytes()),
        suggested_name: Some(s("mine.pdf")),
        target_path: None,
        overwrite: None,
    }));
    let (_, a) = e.step(ExportInput::Picked(PickResult::Failed));
    assert_eq!(error_code(&a), Some(SignErrorCode::EUnknown));

    e.step(ExportInput::Start(payload(&pdf_bytes(), None, None)));
    let (_, a) = e.step(ExportInput::Picked(PickResult::Chosen(s("x/y.pdf"))));
    assert!(matches!(a, ExportAction::Probe { ref path } if path == "x/y.pdf"));
}

#[test]
fn empty_target_is_cancelled() {
    let mut e = Exporter::new();
    let (_, a) = e.step(ExportInput::Start(payload(&pdf_bytes(), Some(""), None)));
    assert_eq!(error_code(&a), Some(SignErrorCode::ECancelled));
}

#[test]
fn parent_problems_are_reported_after_write_event() {
    let mut e = Exporter::new();
    e.step(ExportInput::Start(payload(&pdf_bytes(), Some("o.pdf"), None)));
    let (ev, a) = e.step(ExportInput::Probed { dest_exists: false, parent: None, parent_exists: false });
    assert_eq!(error_code(&a), Some(SignErrorCode::EInvalidArg));
    assert!(matches!(ev[..], [Progress::Write, Progress::Error { .. }]));
    e.step(ExportInput::Start(payload(&pdf_bytes(), Some("m/o.pdf"), None)));
    let (_, a) = e.step(ExportInput::Probed { dest_exists: false, parent: Some(s("m")), parent_exists: false });
    assert_eq!(error_code(&a), Some(SignErrorCode::EPermission));
}

#[test]
fn write_failures_are_mapped() {
    let mut e = Exporter::new();
    e.step(ExportInput::Start(payload(&pdf_bytes(), Some("d/o.pdf"), None)));
    e.step(ExportInput::Probed { dest_exists: false, parent: Some(s("d")), parent_exists: true });
    let (ev, a) = e.step(ExportInput::Written(Err(IoFailure {
        stage: WriteStage::Rename,
        kind: IoKind::PermissionDenied,
        detail: s("x"),
    })));
    match a {
        ExportAction::Finish(Err(er)) => {
            assert_eq!(er.code, SignErrorCode::EPermission);
            assert_eq!(er.message, "the atomic rename failed: permission denied");
            assert!(!er.ok);
        }
        _ => panic!("expected an error"),
    }
    assert_eq!(ev.len(), 1);
    assert!(e.is_idle());
}

#[test]
fn io_kinds_map_to_codes() {
    assert_eq!(map_io("ctx", IoKind::NotFound, "").code, SignErrorCode::EPermission);
    assert_eq!(map_io("ctx", IoKind::AlreadyExists, "").code, SignErrorCode::EExists);
    let other = map_io("writing failed", IoKind::Other, "disk full");
    assert_eq!(other.code, SignErrorCode::EIo);
    assert_eq!(other.message, "writing failed: disk full");
    let e = err(SignErrorCode::EUnknown, s("m"));
    assert!(!e.ok);
    assert_eq!(e.message, "m");
}

#[test]
fn out_of_phase_input_is_refused() {
    let mut e = Exporter::new();
    let (ev, a) = e.step(ExportInput::Written(Ok(())));
    assert!(ev.is_empty());
    assert!(matches!(a, ExportAction::Refused));
    e.step(ExportInput::Start(payload(&pdf_bytes(), Some("d/o.pdf"), None)));
    let (ev, a) = e.step(ExportInput::Start(payload(&pdf_bytes(), Some("d/p.pdf"), None)));
    assert!(ev.is_empty());
    assert!(matches!(a, ExportAction::Refused));
    assert!(!e.is_idle());
}

#[test]
fn consecutive_exports_do_not_interleave() {
    let mut e = Exporter::new();
    let mut log: Vec<Progress> = Vec::new();
    for name in ["d/a.pdf", "d/b.pdf"] {
        let (ev, _) = e.step(ExportInput::Start(payload(&pdf_bytes(), Some(name), Some(true))));
        log.extend(ev);
        let (ev, _) = e.step(ExportInput::Probed { dest_exists: false, parent: Some(s("d")), parent_exists: true });
        log.extend(ev);
        let (ev, _) = e.step(ExportInput::Written(Ok(())));
        log.extend(ev);
    }
    assert_eq!(log.len(), 6);
    assert!(matches!(
        log[..],
        [Progress::Prepare, Progress::Write, Progress::Done { .. }, Progress::Prepare, Progress::Write, Progress::Done { .. }]
    ));
}

#[test]
fn receipt_becomes_report() {
    let r = export_ok(ExportReceipt { path: s("p"), bytes_written: 3, sha256: s("h") }, 12);
    assert_eq!(r.path, "p");
    assert_eq!(r.bytes_written, 3);
    assert_eq!(r.sha256, "h");
    assert_eq!(r.took_ms, 12);
}
