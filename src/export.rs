//! The export transaction: decode and check a document, settle its
//! destination, refuse to clobber, then hand over one durable atomic write.
//!
//! The transaction is a state machine. The caller feeds it what the outside
//! world answered (the payload, the file picker's choice, what the filesystem
//! shows, how the write went) and carries out the action it returns. Each step
//! also returns the progress events to broadcast; the events of all
//! transactions run through one `Exporter`, whose log stays well formed: an
//! export starts only after the previous one reached its terminal event.
use vstd::prelude::*;
use crate::payload::{base64_decoded, content_digest, decode_b64, hex_sha256, is_plausible_pdf, plausible_pdf};
use crate::text::{chars_of, lit, push_str, string_of};

verus! {

/// The kinds of export failure.
#[derive(Clone, Copy, Debug, PartialEq, Eq, Structural)]
pub enum SignErrorCode {
    ECancelled,
    EInvalidPdf,
    EInvalidArg,
    EExists,
    EPermission,
    EIo,
    EUnknown,
}

/// An export failure as reported to the caller.
pub struct SignErrorDto {
    pub ok: bool,
    pub code: SignErrorCode,
    pub message: String,
}

/// Builds a failure report.
pub fn err(code: SignErrorCode, message: String) -> (r: SignErrorDto)
    ensures
        !r.ok,
        r.code == code,
        r.message == message,
{
    SignErrorDto { ok: false, code, message }
}

/// The kinds of filesystem failure that are told apart.
#[derive(Clone, Copy, Debug, PartialEq, Eq, Structural)]
pub enum IoKind {
    PermissionDenied,
    NotFound,
    AlreadyExists,
    Other,
}

pub open spec fn io_code(k: IoKind) -> SignErrorCode {
    match k {
        IoKind::PermissionDenied => SignErrorCode::EPermission,
        IoKind::NotFound => SignErrorCode::EPermission,
        IoKind::AlreadyExists => SignErrorCode::EExists,
        IoKind::Other => SignErrorCode::EIo,
    }
}

pub open spec fn io_message(ctx: Seq<char>, k: IoKind, detail: Seq<char>) -> Seq<char> {
    ctx + ": "@ + match k {
        IoKind::PermissionDenied => "permission denied"@,
        IoKind::NotFound => "directory does not exist"@,
        IoKind::AlreadyExists => "already exists"@,
        IoKind::Other => detail,
    }
}

/// Maps a filesystem failure during `ctx` to a report.
pub fn map_io(ctx: &str, kind: IoKind, detail: &str) -> (r: SignErrorDto)
    ensures
        !r.ok,
        r.code == io_code(kind),
        r.message@ == io_message(ctx@, kind, detail@),
{
    let mut m = chars_of(ctx);
    push_str(&mut m, ": ");
    let code = match kind {
        IoKind::PermissionDenied => {
            push_str(&mut m, "permission denied");
            SignErrorCode::EPermission
        },
        IoKind::NotFound => {
            push_str(&mut m, "directory does not exist");
            SignErrorCode::EPermission
        },
        IoKind::AlreadyExists => {
            push_str(&mut m, "already exists");
            SignErrorCode::EExists
        },
        IoKind::Other => {
            push_str(&mut m, detail);
            SignErrorCode::EIo
        },
    };
    err(code, string_of(&m))
}

/// What the caller asks to export.
pub struct SignAndExportPayload {
    /// The document, base64-encoded.
    pub pdf_bytes_b64: String,
    /// Default file name offered by the file picker.
    pub suggested_name: Option<String>,
    /// Destination; when absent the file picker is asked.
    pub target_path: Option<String>,
    /// Whether an existing destination may be replaced (default: no).
    pub overwrite: Option<bool>,
}

/// What a successful export reports.
pub struct SignExportOk {
    pub path: String,
    pub bytes_written: usize,
    pub sha256: String,
    pub took_ms: u128,
}

/// What the transaction itself knows of a successful export.
pub struct ExportReceipt {
    pub path: String,
    pub bytes_written: usize,
    pub sha256: String,
}

/// The report of a successful export, with the time it took.
pub fn export_ok(receipt: ExportReceipt, took_ms: u128) -> (r: SignExportOk)
    ensures
        r.path == receipt.path,
        r.bytes_written == receipt.bytes_written,
        r.sha256 == receipt.sha256,
        r.took_ms == took_ms,
{
    SignExportOk {
        path: receipt.path,
        bytes_written: receipt.bytes_written,
        sha256: receipt.sha256,
        took_ms,
    }
}

/// A progress event.
pub enum Progress {
    Prepare,
    Write,
    Done { path: String, sha256: String },
    Error { code: SignErrorCode, message: String },
}

/// Where the write failed.
#[derive(Clone, Copy, Debug, PartialEq, Eq, Structural)]
pub enum WriteStage {
    CreateTemp,
    WriteData,
    RemoveOld,
    Rename,
}

pub open spec fn stage_context(s: WriteStage) -> Seq<char> {
    match s {
        WriteStage::CreateTemp => "creating the temporary file failed"@,
        WriteStage::WriteData => "writing failed"@,
        WriteStage::RemoveOld => "removing the old file failed"@,
        WriteStage::Rename => "the atomic rename failed"@,
    }
}

fn stage_context_exec(s: WriteStage) -> (r: &'static str)
    ensures
        r@ == stage_context(s),
{
    match s {
        WriteStage::CreateTemp => "creating the temporary file failed",
        WriteStage::WriteData => "writing failed",
        WriteStage::RemoveOld => "removing the old file failed",
        WriteStage::Rename => "the atomic rename failed",
    }
}

/// A failed write.
pub struct IoFailure {
    pub stage: WriteStage,
    pub kind: IoKind,
    pub detail: String,
}

/// What the file picker answered.
pub enum PickResult {
    Chosen(String),
    Dismissed,
    Failed,
}

/// What the caller hands the transaction.
pub enum ExportInput {
    /// A new export.
    Start(SignAndExportPayload),
    /// The file picker's answer.
    Picked(PickResult),
    /// What the filesystem shows of the destination: whether it exists, its
    /// parent directory (none for a root or empty path), whether that exists.
    Probed { dest_exists: bool, parent: Option<String>, parent_exists: bool },
    /// How the write went.
    Written(Result<(), IoFailure>),
}

/// What the caller does next.
pub enum ExportAction {
    /// Ask the file picker for a destination.
    Pick { suggested_name: String },
    /// Probe the destination.
    Probe { path: String },
    /// Create a temporary file in `dir`, write `data` to it, flush and sync it;
    /// remove the existing destination if `replace_existing`; rename the
    /// temporary file to `path`.
    Write { dir: String, path: String, data: Vec<u8>, replace_existing: bool },
    /// The export ended.
    Finish(Result<ExportReceipt, SignErrorDto>),
    /// The input does not fit the transaction's phase and was ignored.
    Refused,
}

/// Where a transaction stands.
pub enum ExportPhase {
    Idle,
    AwaitingPick { data: Vec<u8>, overwrite: bool },
    AwaitingProbe { data: Vec<u8>, path: String, overwrite: bool },
    AwaitingWrite { data: Vec<u8>, path: String, digest: String },
}

/// Where the progress log stands.
pub enum LogState {
    Idle,
    Preparing,
    Writing,
}

pub open spec fn log_step(s: LogState, e: Progress) -> Option<LogState> {
    match (s, e) {
        (LogState::Idle, Progress::Prepare) => Some(LogState::Preparing),
        (LogState::Preparing, Progress::Write) => Some(LogState::Writing),
        (LogState::Preparing, Progress::Done { .. }) => Some(LogState::Idle),
        (LogState::Preparing, Progress::Error { .. }) => Some(LogState::Idle),
        (LogState::Writing, Progress::Done { .. }) => Some(LogState::Idle),
        (LogState::Writing, Progress::Error { .. }) => Some(LogState::Idle),
        _ => None,
    }
}

/// The state a progress log leads to, if it is well formed: each export
/// emits `Prepare`, possibly `Write`, then exactly one terminal event.
pub open spec fn log_run(events: Seq<Progress>) -> Option<LogState>
    decreases events.len(),
{
    if events.len() == 0 {
        Some(LogState::Idle)
    } else {
        match log_run(events.drop_last()) {
            Some(s) => log_step(s, events.last()),
            None => None,
        }
    }
}

pub open spec fn phase_state(p: ExportPhase) -> LogState {
    match p {
        ExportPhase::Idle => LogState::Idle,
        ExportPhase::AwaitingPick { .. } => LogState::Preparing,
        ExportPhase::AwaitingProbe { .. } => LogState::Preparing,
        ExportPhase::AwaitingWrite { .. } => LogState::Writing,
    }
}

pub open spec fn is_terminal(e: Progress) -> bool {
    e is Done || e is Error
}

/// The transaction ends with error `code`, after emitting `before` and then the
/// error event.
pub open spec fn fails_with(
    new_phase: ExportPhase,
    emitted: Seq<Progress>,
    action: ExportAction,
    before: Seq<Progress>,
    code: SignErrorCode,
) -> bool {
    &&& new_phase is Idle
    &&& action matches ExportAction::Finish(Err(e))
    &&& e.code == code
    &&& !e.ok
    &&& emitted == before.push(Progress::Error { code: e.code, message: e.message })
}

/// The path the picker is offered when the caller suggests none.
pub open spec fn default_name() -> Seq<char> {
    "signed.pdf"@
}

/// One step of the transaction, from `old` on `input` to `new`, emitting
/// `emitted` and asking for `action`.
pub open spec fn step_rel(
    old: ExportPhase,
    input: ExportInput,
    new: ExportPhase,
    emitted: Seq<Progress>,
    action: ExportAction,
) -> bool {
    match (old, input) {
        (ExportPhase::Idle, ExportInput::Start(p)) => {
            let ow = match p.overwrite {
                Some(b) => b,
                None => false,
            };
            match base64_decoded(p.pdf_bytes_b64@) {
                None => fails_with(new, emitted, action, seq![Progress::Prepare], SignErrorCode::EInvalidPdf),
                Some(d) => if !plausible_pdf(d) {
                    fails_with(new, emitted, action, seq![Progress::Prepare], SignErrorCode::EInvalidPdf)
                } else {
                    match p.target_path {
                        Some(t) => if t@.len() == 0 {
                            fails_with(new, emitted, action, seq![Progress::Prepare], SignErrorCode::ECancelled)
                        } else {
                            &&& emitted == seq![Progress::Prepare]
                            &&& action matches ExportAction::Probe { path } && path == t
                            &&& new matches ExportPhase::AwaitingProbe { data, path, overwrite }
                                && data@ == d && path == t && overwrite == ow
                        },
                        None => {
                            &&& emitted == seq![Progress::Prepare]
                            &&& action matches ExportAction::Pick { suggested_name } && suggested_name@
                                == match p.suggested_name {
                                Some(n) => n@,
                                None => default_name(),
                            }
                            &&& new matches ExportPhase::AwaitingPick { data, overwrite } && data@ == d
                                && overwrite == ow
                        },
                    }
                },
            }
        },
        (ExportPhase::AwaitingPick { data, overwrite }, ExportInput::Picked(r)) => match r {
            PickResult::Chosen(path) => if path@.len() == 0 {
                fails_with(new, emitted, action, seq![], SignErrorCode::ECancelled)
            } else {
                &&& emitted == Seq::<Progress>::empty()
                &&& action == ExportAction::Probe { path }
                &&& new == ExportPhase::AwaitingProbe { data, path, overwrite }
            },
            PickResult::Dismissed => fails_with(new, emitted, action, seq![], SignErrorCode::ECancelled),
            PickResult::Failed => fails_with(new, emitted, action, seq![], SignErrorCode::EUnknown),
        },
        (
            ExportPhase::AwaitingProbe { data, path, overwrite },
            ExportInput::Probed { dest_exists, parent, parent_exists },
        ) => if !overwrite && dest_exists {
            fails_with(new, emitted, action, seq![], SignErrorCode::EExists)
        } else {
            match parent {
                None => fails_with(new, emitted, action, seq![Progress::Write], SignErrorCode::EInvalidArg),
                Some(dir) => if !parent_exists {
                    fails_with(new, emitted, action, seq![Progress::Write], SignErrorCode::EPermission)
                } else {
                    &&& emitted == seq![Progress::Write]
                    &&& action matches ExportAction::Write { dir: d, path: p, data: bytes, replace_existing }
                        && d == dir && p == path && bytes@ == data@ && replace_existing == (overwrite
                        && dest_exists)
                    &&& new matches ExportPhase::AwaitingWrite { data: d2, path: p2, digest } && d2@
                        == data@ && p2 == path && digest@ == content_digest(data@)
                }
            }
        },
        (ExportPhase::AwaitingWrite { data, path, digest }, ExportInput::Written(r)) => match r {
            Ok(()) => {
                &&& new is Idle
                &&& emitted == seq![Progress::Done { path, sha256: digest }]
                &&& action matches ExportAction::Finish(Ok(receipt)) && receipt.path == path
                    && receipt.bytes_written == data@.len() && receipt.sha256 == digest
            },
            Err(f) => {
                &&& fails_with(new, emitted, action, seq![], io_code(f.kind))
                &&& action matches ExportAction::Finish(Err(e)) && e.message@ == io_message(
                    stage_context(f.stage),
                    f.kind,
                    f.detail@,
                )
            },
        },
        _ => new == old && emitted == Seq::<Progress>::empty() && action is Refused,
    }
}

fn one_event(e: Progress) -> (r: Vec<Progress>)
    ensures
        r@ == seq![e],
{
    let mut v: Vec<Progress> = Vec::new();
    v.push(e);
    assert(v@ =~= seq![e]);
    v
}

fn fail(before: Vec<Progress>, e: SignErrorDto) -> (r: (ExportPhase, Vec<Progress>, ExportAction))
    requires
        !e.ok,
    ensures
        fails_with(r.0, r.1@, r.2, before@, e.code),
        r.2 == ExportAction::Finish(Err::<ExportReceipt, SignErrorDto>(e)),
{
    let mut ev = before;
    ev.push(Progress::Error { code: e.code, message: e.message.clone() });
    (ExportPhase::Idle, ev, ExportAction::Finish(Err(e)))
}

fn on_start(p: SignAndExportPayload) -> (r: (ExportPhase, Vec<Progress>, ExportAction))
    ensures
        step_rel(ExportPhase::Idle, ExportInput::Start(p), r.0, r.1@, r.2),
{
    let SignAndExportPayload { pdf_bytes_b64, suggested_name, target_path, overwrite } = p;
    let ow = match overwrite {
        Some(b) => b,
        None => false,
    };
    let data = match decode_b64(pdf_bytes_b64.as_str()) {
        Some(d) => d,
        None => {
            return fail(
                one_event(Progress::Prepare),
                err(SignErrorCode::EInvalidPdf, lit("the payload is not valid base64")),
            );
        },
    };
    if !is_plausible_pdf(&data) {
        return fail(
            one_event(Progress::Prepare),
            err(SignErrorCode::EInvalidPdf, lit("not a PDF: header or trailer mark missing")),
        );
    }
    match target_path {
        Some(t) => {
            if t.as_str().is_empty() {
                fail(
                    one_event(Progress::Prepare),
                    err(SignErrorCode::ECancelled, lit("no destination was chosen")),
                )
            } else {
                let path = t.clone();
                (
                    ExportPhase::AwaitingProbe { data, path: t, overwrite: ow },
                    one_event(Progress::Prepare),
                    ExportAction::Probe { path },
                )
            }
        },
        None => {
            let suggested = match suggested_name {
                Some(n) => n,
                None => lit("signed.pdf"),
            };
            (
                ExportPhase::AwaitingPick { data, overwrite: ow },
                one_event(Progress::Prepare),
                ExportAction::Pick { suggested_name: suggested },
            )
        },
    }
}

fn on_pick(data: Vec<u8>, overwrite: bool, picked: PickResult) -> (r: (
    ExportPhase,
    Vec<Progress>,
    ExportAction,
))
    ensures
        step_rel(
            ExportPhase::AwaitingPick { data, overwrite },
            ExportInput::Picked(picked),
            r.0,
            r.1@,
            r.2,
        ),
{
    match picked {
        PickResult::Chosen(path) => {
            if path.as_str().is_empty() {
                fail(Vec::new(), err(SignErrorCode::ECancelled, lit("no destination was chosen")))
            } else {
                let p2 = path.clone();
                (
                    ExportPhase::AwaitingProbe { data, path, overwrite },
                    Vec::new(),
                    ExportAction::Probe { path: p2 },
                )
            }
        },
        PickResult::Dismissed => fail(
            Vec::new(),
            err(SignErrorCode::ECancelled, lit("the file picker was dismissed")),
        ),
        PickResult::Failed => fail(
            Vec::new(),
            err(SignErrorCode::EUnknown, lit("the file picker failed")),
        ),
    }
}

fn on_probe(
    data: Vec<u8>,
    path: String,
    overwrite: bool,
    dest_exists: bool,
    parent: Option<String>,
    parent_exists: bool,
) -> (r: (ExportPhase, Vec<Progress>, ExportAction))
    ensures
        step_rel(
            ExportPhase::AwaitingProbe { data, path, overwrite },
            ExportInput::Probed { dest_exists, parent, parent_exists },
            r.0,
            r.1@,
            r.2,
        ),
{
    if !overwrite && dest_exists {
        return fail(
            Vec::new(),
            err(SignErrorCode::EExists, lit("the destination exists and may not be replaced")),
        );
    }
    match parent {
        None => fail(
            one_event(Progress::Write),
            err(SignErrorCode::EInvalidArg, lit("the destination has no parent directory")),
        ),
        Some(dir) => {
            if !parent_exists {
                fail(
                    one_event(Progress::Write),
                    err(
                        SignErrorCode::EPermission,
                        lit("the destination directory is missing or inaccessible"),
                    ),
                )
            } else {
                let digest = hex_sha256(data.as_slice());
                let bytes = data.clone();
                assert(bytes@ =~= data@);
                let p2 = path.clone();
                (
                    ExportPhase::AwaitingWrite { data, path, digest },
                    one_event(Progress::Write),
                    ExportAction::Write {
                        dir,
                        path: p2,
                        data: bytes,
                        replace_existing: overwrite && dest_exists,
                    },
                )
            }
        },
    }
}

fn on_written(data: Vec<u8>, path: String, digest: String, result: Result<(), IoFailure>) -> (r: (
    ExportPhase,
    Vec<Progress>,
    ExportAction,
))
    ensures
        step_rel(
            ExportPhase::AwaitingWrite { data, path, digest },
            ExportInput::Written(result),
            r.0,
            r.1@,
            r.2,
        ),
{
    match result {
        Ok(()) => {
            let receipt = ExportReceipt {
                path: path.clone(),
                bytes_written: data.len(),
                sha256: digest.clone(),
            };
            (
                ExportPhase::Idle,
                one_event(Progress::Done { path, sha256: digest }),
                ExportAction::Finish(Ok(receipt)),
            )
        },
        Err(f) => {
            let e = map_io(stage_context_exec(f.stage), f.kind, f.detail.as_str());
            fail(Vec::new(), e)
        },
    }
}

/// The export component: it runs one transaction at a time and keeps the log of
/// every progress event it has emitted. Sharing one `Exporter` behind a lock
/// serializes all exports that go through it.
pub struct Exporter {
    phase: ExportPhase,
    history: Ghost<Seq<Progress>>,
}

impl Exporter {
    /// Where the current transaction stands.
    pub closed spec fn phase(&self) -> ExportPhase {
        self.phase
    }

    /// Every progress event emitted so far, in order.
    pub closed spec fn history(&self) -> Seq<Progress> {
        self.history@
    }

    /// The log is well formed and agrees with the current phase.
    pub closed spec fn wf(&self) -> bool {
        log_run(self.history@) == Some(phase_state(self.phase))
    }

    /// An exporter with no transaction under way.
    pub fn new() -> (r: Exporter)
        ensures
            r.wf(),
            r.phase() is Idle,
            r.history() == Seq::<Progress>::empty(),
    {
        Exporter { phase: ExportPhase::Idle, history: Ghost(Seq::empty()) }
    }

    /// Whether no transaction is under way.
    pub fn is_idle(&self) -> (r: bool)
        ensures
            r == self.phase() is Idle,
    {
        match self.phase {
            ExportPhase::Idle => true,
            _ => false,
        }
    }

    /// Feeds one input to the transaction. Returns the progress events to
    /// broadcast, in order, and the action to carry out.
    pub fn step(&mut self, input: ExportInput) -> (r: (Vec<Progress>, ExportAction))
        requires
            old(self).wf(),
        ensures
            final(self).wf(),
            step_rel(old(self).phase(), input, final(self).phase(), r.0@, r.1),
            final(self).history() == old(self).history() + r.0@,
    {
        let ghost old_phase = self.phase;
        let ghost h = self.history@;
        let mut phase = ExportPhase::Idle;
        core::mem::swap(&mut phase, &mut self.phase);
        let (next, events, action) = match (phase, input) {
            (ExportPhase::Idle, ExportInput::Start(p)) => on_start(p),
            (ExportPhase::AwaitingPick { data, overwrite }, ExportInput::Picked(r)) => on_pick(
                data,
                overwrite,
                r,
            ),
            (
                ExportPhase::AwaitingProbe { data, path, overwrite },
                ExportInput::Probed { dest_exists, parent, parent_exists },
            ) => on_probe(data, path, overwrite, dest_exists, parent, parent_exists),
            (ExportPhase::AwaitingWrite { data, path, digest }, ExportInput::Written(r)) => on_written(
                data,
                path,
                digest,
                r,
            ),
            (ph, _) => (ph, Vec::new(), ExportAction::Refused),
        };
        self.phase = next;
        self.history = Ghost(h + events@);
        proof {
            lemma_step_keeps_log(old_phase, input, next, events@, action, h);
        }
        (events, action)
    }
}

proof fn lemma_log_push(h: Seq<Progress>, e: Progress)
    ensures
        log_run(h.push(e)) == match log_run(h) {
            Some(s) => log_step(s, e),
            None => None,
        },
{
    assert(h.push(e).drop_last() =~= h);
}

proof fn lemma_step_keeps_log(
    old: ExportPhase,
    input: ExportInput,
    new: ExportPhase,
    em: Seq<Progress>,
    action: ExportAction,
    h: Seq<Progress>,
)
    requires
        log_run(h) == Some(phase_state(old)),
        step_rel(old, input, new, em, action),
    ensures
        log_run(h + em) == Some(phase_state(new)),
{
    if em.len() == 0 {
        assert(h + em =~= h);
        match (old, input) {
            (ExportPhase::AwaitingPick { .. }, ExportInput::Picked(r)) => {
                assert(new is AwaitingProbe);
            },
            (ExportPhase::Idle, ExportInput::Start(_)) => {},
            (ExportPhase::AwaitingProbe { .. }, ExportInput::Probed { .. }) => {},
            (ExportPhase::AwaitingWrite { .. }, ExportInput::Written(_)) => {},
            _ => {
                assert(new == old);
            },
        }
    } else if em.len() == 1 {
        assert(h + em =~= h.push(em[0]));
        lemma_log_push(h, em[0]);
        match (old, input) {
            (ExportPhase::Idle, ExportInput::Start(_)) => {
                assert(em[0] is Prepare);
            },
            (ExportPhase::AwaitingPick { .. }, ExportInput::Picked(r)) => {
                assert(em[0] is Error && new is Idle);
            },
            (ExportPhase::AwaitingProbe { .. }, ExportInput::Probed { .. }) => {
                assert((em[0] is Error && new is Idle) || (em[0] is Write && new is AwaitingWrite));
            },
            (ExportPhase::AwaitingWrite { .. }, ExportInput::Written(r)) => {
                assert(is_terminal(em[0]) && new is Idle);
            },
            _ => {},
        }
    } else {
        assert(h + em =~= h.push(em[0]).push(em[1]));
        lemma_log_push(h, em[0]);
        lemma_log_push(h.push(em[0]), em[1]);
        match (old, input) {
            (ExportPhase::Idle, ExportInput::Start(_)) => {
                assert(em[0] is Prepare && em[1] is Error && new is Idle);
            },
            (ExportPhase::AwaitingProbe { .. }, ExportInput::Probed { .. }) => {
                assert(em[0] is Write && em[1] is Error && new is Idle);
            },
            _ => {},
        }
    }
}

proof fn lemma_idle_after_terminal(events: Seq<Progress>)
    requires
        events.len() > 0,
        log_run(events) == Some(LogState::Idle),
    ensures
        is_terminal(events.last()),
{
}

proof fn lemma_prefix_runs(events: Seq<Progress>, n: int)
    requires
        log_run(events) is Some,
        0 <= n <= events.len(),
    ensures
        log_run(events.subrange(0, n)) is Some,
    decreases events.len() - n,
{
    if n < events.len() {
        assert(events.subrange(0, n + 1).drop_last() =~= events.subrange(0, n));
        lemma_prefix_runs(events, n + 1);
    } else {
        assert(events.subrange(0, n) =~= events);
    }
}

/// Exports never interleave: in the log of an exporter, an export's `Prepare`
/// comes first or right after the previous export's terminal event; `Write`
/// only follows `Prepare`; and each terminal event closes exactly one export.
pub proof fn lemma_exports_never_interleave(e: &Exporter, j: int)
    requires
        e.wf(),
        0 <= j < e.history().len(),
    ensures
        e.history()[j] is Prepare ==> j == 0 || is_terminal(e.history()[j - 1]),
        e.history()[j] is Write ==> j > 0 && e.history()[j - 1] is Prepare,
        is_terminal(e.history()[j]) ==> j > 0 && (e.history()[j - 1] is Prepare || e.history()[j
            - 1] is Write),
        j == 0 ==> e.history()[0] is Prepare,
{
    let h = e.history@;
    lemma_prefix_runs(h, j + 1);
    let pre = h.subrange(0, j + 1);
    assert(pre.drop_last() =~= h.subrange(0, j));
    assert(pre.last() == h[j]);
    if j > 0 {
        lemma_prefix_runs(h, j);
        let pre2 = h.subrange(0, j);
        assert(pre2.last() == h[j - 1]);
        assert(pre2.drop_last() =~= h.subrange(0, j - 1));
        if log_run(pre2) == Some(LogState::Idle) {
            lemma_idle_after_terminal(pre2);
        }
    } else {
        assert(h.subrange(0, 0) =~= Seq::<Progress>::empty());
    }
}

/// A payload that does not decode, or lacks the header or trailer mark, ends
/// the export with `EInvalidPdf` right after `Prepare`: no `Write` event, no
/// write action.
pub proof fn lemma_invalid_payload_never_written(
    p: SignAndExportPayload,
    new: ExportPhase,
    emitted: Seq<Progress>,
    action: ExportAction,
)
    requires
        step_rel(ExportPhase::Idle, ExportInput::Start(p), new, emitted, action),
        match base64_decoded(p.pdf_bytes_b64@) {
            None => true,
            Some(d) => !plausible_pdf(d),
        },
    ensures
        new is Idle,
        action matches ExportAction::Finish(Err(e)) && e.code == SignErrorCode::EInvalidPdf,
        emitted.len() == 2 && emitted[0] is Prepare && emitted[1] is Error,
{
}

/// An existing destination without permission to overwrite ends the export
/// with `EExists` and no write action, so the existing file is untouched. With
/// permission, the write replaces the existing file with exactly the decoded
/// bytes, and a successful write reports the digest of those bytes.
pub proof fn lemma_conflict_and_overwrite(
    data: Vec<u8>,
    path: String,
    overwrite: bool,
    parent: Option<String>,
    parent_exists: bool,
    new: ExportPhase,
    emitted: Seq<Progress>,
    action: ExportAction,
    written: ExportPhase,
    emitted2: Seq<Progress>,
    action2: ExportAction,
)
    requires
        step_rel(
            ExportPhase::AwaitingProbe { data, path, overwrite },
            ExportInput::Probed { dest_exists: true, parent, parent_exists },
            new,
            emitted,
            action,
        ),
        step_rel(new, ExportInput::Written(Ok(())), written, emitted2, action2),
    ensures
        !overwrite ==> (action matches ExportAction::Finish(Err(e)) && e.code
            == SignErrorCode::EExists) && !(emitted.contains(Progress::Write)),
        overwrite && parent is Some && parent_exists ==> (action matches ExportAction::Write {
            data: bytes,
            replace_existing,
            ..
        } && bytes@ == data@ && replace_existing) && (action2 matches ExportAction::Finish(
            Ok(receipt),
        ) && receipt.sha256@ == content_digest(data@) && receipt.bytes_written == data@.len()),
{
    if !overwrite {
        assert(emitted.len() == 1);
        assert(emitted[0] is Error);
        assert(!(emitted.contains(Progress::Write))) by {
            if emitted.contains(Progress::Write) {
                let i = choose|i: int| 0 <= i < emitted.len() && emitted[i] == Progress::Write;
                assert(i == 0);
            }
        }
    }
}

/// The bytes an export hands to the write are exactly its decoded payload,
/// whether the destination came from the caller or from the file picker.
pub proof fn lemma_written_bytes_are_the_payload(
    p: SignAndExportPayload,
    picked: Option<PickResult>,
    probed: ExportInput,
    ph1: ExportPhase,
    e1: Seq<Progress>,
    a1: ExportAction,
    ph2: ExportPhase,
    e2: Seq<Progress>,
    a2: ExportAction,
    ph3: ExportPhase,
    e3: Seq<Progress>,
    a3: ExportAction,
)
    requires
        step_rel(ExportPhase::Idle, ExportInput::Start(p), ph1, e1, a1),
        match picked {
            Some(r) => step_rel(ph1, ExportInput::Picked(r), ph2, e2, a2),
            None => ph2 == ph1,
        },
        step_rel(ph2, probed, ph3, e3, a3),
        a3 is Write,
    ensures
        base64_decoded(p.pdf_bytes_b64@) matches Some(d) && plausible_pdf(d) && (a3 matches ExportAction::Write {
            data,
            ..
        } && data@ == d),
{
}

} // verus!
