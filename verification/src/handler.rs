//! The per-connection decision pipeline: from the bytes read off a
//! connection, through parsing, host resolution and path resolution, to the
//! next action the caller must perform. The caller does the reading, file
//! access and writing; every decision in between is taken here.
//!
//! A connection is handled exactly once: the caller reads once, hands the
//! bytes to [`on_request_bytes`], performs the returned action, and feeds
//! each file-read outcome back through [`on_file_result`] until the step is
//! a response to write or a silent close.

use vstd::prelude::*;

use crate::paths::{
    error_doc_path, has_dotdot, lemma_no_traversal, resolve_path, spec_error_doc_path,
    spec_resolve_path,
};
use crate::request::{
    host_of, parse_request, spec_host_of, spec_parse_request, ReqView,
};
use crate::response::{build_response, reason_phrase, spec_response, Status};
use crate::vhost::{spec_resolve, VHostView, VirtualHosts};

verus! {

/// Which file read a pending connection awaits.
#[derive(Clone, Copy, PartialEq, Eq, Structural)]
pub enum Stage {
    /// The file the request path resolved to.
    MainFile,
    /// The error document, after the requested file was not found.
    ErrorDoc,
}

/// The state a connection carries between a file read and the next
/// decision: the matched document root, and which read is under way.
pub struct Pending {
    pub dir: Vec<u8>,
    pub stage: Stage,
}

/// The mathematical image of a pending read.
pub ghost struct PendingView {
    pub dir: Seq<u8>,
    pub stage: Stage,
}

impl View for Pending {
    type V = PendingView;

    open spec fn view(&self) -> PendingView {
        PendingView { dir: self.dir@, stage: self.stage }
    }
}

/// The next action a connection's caller must perform.
pub enum Step {
    /// The peer closed before sending anything: close without writing.
    CloseSilently,
    /// Write these bytes, then close.
    Respond(Vec<u8>),
    /// Read the named file and hand the outcome to [`on_file_result`].
    ReadFile(Vec<u8>, Pending),
}

/// The mathematical image of a step.
pub ghost enum StepView {
    CloseSilently,
    Respond(Seq<u8>),
    ReadFile(Seq<u8>, PendingView),
}

impl View for Step {
    type V = StepView;

    open spec fn view(&self) -> StepView {
        match self {
            Step::CloseSilently => StepView::CloseSilently,
            Step::Respond(b) => StepView::Respond(b@),
            Step::ReadFile(f, p) => StepView::ReadFile(f@, p@),
        }
    }
}

/// The outcome of one file read, as the caller saw it.
pub enum FileOutcome {
    /// The file was read whole; these are its bytes.
    Content(Vec<u8>),
    /// The file does not exist.
    NotFound,
    /// Any other filesystem failure.
    OtherError,
}

/// The mathematical image of a file-read outcome.
pub ghost enum FileOutcomeView {
    Content(Seq<u8>),
    NotFound,
    OtherError,
}

impl View for FileOutcome {
    type V = FileOutcomeView;

    open spec fn view(&self) -> FileOutcomeView {
        match self {
            FileOutcome::Content(b) => FileOutcomeView::Content(b@),
            FileOutcome::NotFound => FileOutcomeView::NotFound,
            FileOutcome::OtherError => FileOutcomeView::OtherError,
        }
    }
}

/// The response sent when no document root's file can serve the outcome:
/// the status with its reason phrase as the minimal built-in body.
pub open spec fn spec_builtin_response(st: Status) -> Seq<u8> {
    spec_response(st, reason_phrase(st))
}

/// The step taken once a connection's request bytes are in hand: close
/// silently on an empty read; reject with a 400 response when the head is
/// malformed, names no resolvable host, or its path resolves to nothing;
/// otherwise read the resolved file.
pub open spec fn spec_on_bytes(t: Seq<VHostView>, buf: Seq<u8>) -> StepView {
    if buf.len() == 0 {
        StepView::CloseSilently
    } else {
        match spec_parse_request(buf) {
            None => StepView::Respond(spec_builtin_response(Status::BadRequest)),
            Some(req) => match spec_host_of(req.headers) {
                None => StepView::Respond(spec_builtin_response(Status::BadRequest)),
                Some(h) => match spec_resolve(t, h) {
                    None => StepView::Respond(spec_builtin_response(Status::BadRequest)),
                    Some(dir) => match spec_resolve_path(dir, req.path) {
                        None => StepView::Respond(spec_builtin_response(Status::BadRequest)),
                        Some(f) => StepView::ReadFile(
                            f,
                            PendingView { dir: dir, stage: Stage::MainFile },
                        ),
                    },
                },
            },
        }
    }
}

/// The step taken on a file-read outcome. The requested file's contents
/// become a 200 body; its absence turns into a read of the error document,
/// whose contents become a 404 body; a missing error document falls back to
/// the built-in 404 body; any other failure answers 500.
pub open spec fn spec_on_file(p: PendingView, out: FileOutcomeView) -> StepView {
    match p.stage {
        Stage::MainFile => match out {
            FileOutcomeView::Content(b) => StepView::Respond(spec_response(Status::Okay, b)),
            FileOutcomeView::NotFound => StepView::ReadFile(
                spec_error_doc_path(p.dir),
                PendingView { dir: p.dir, stage: Stage::ErrorDoc },
            ),
            FileOutcomeView::OtherError => StepView::Respond(
                spec_builtin_response(Status::ServerError),
            ),
        },
        Stage::ErrorDoc => match out {
            FileOutcomeView::Content(b) => StepView::Respond(spec_response(Status::NotFound, b)),
            FileOutcomeView::NotFound => StepView::Respond(spec_builtin_response(Status::NotFound)),
            FileOutcomeView::OtherError => StepView::Respond(
                spec_builtin_response(Status::ServerError),
            ),
        },
    }
}

/// The built-in response for a failure no document can serve.
pub fn builtin_response(st: Status) -> (r: Vec<u8>)
    ensures
        r@ == spec_builtin_response(st),
{
    let body = reason_vec(st);
    build_response(st, &body)
}

/// The reason phrase of `st` as bytes, the minimal built-in body.
fn reason_vec(st: Status) -> (r: Vec<u8>)
    ensures
        r@ == reason_phrase(st),
{
    let mut v: Vec<u8> = Vec::new();
    match st {
        Status::Okay => {
            v.push(79);
            v.push(75);
        },
        Status::BadRequest => {
            v.push(66);
            v.push(97);
            v.push(100);
            v.push(32);
            v.push(82);
            v.push(101);
            v.push(113);
            v.push(117);
            v.push(101);
            v.push(115);
            v.push(116);
        },
        Status::NotFound => {
            v.push(78);
            v.push(111);
            v.push(116);
            v.push(32);
            v.push(70);
            v.push(111);
            v.push(117);
            v.push(110);
            v.push(100);
        },
        Status::ServerError => {
            v.push(73);
            v.push(110);
            v.push(116);
            v.push(101);
            v.push(114);
            v.push(110);
            v.push(97);
            v.push(108);
            v.push(32);
            v.push(83);
            v.push(101);
            v.push(114);
            v.push(118);
            v.push(101);
            v.push(114);
            v.push(32);
            v.push(69);
            v.push(114);
            v.push(114);
            v.push(111);
            v.push(114);
        },
    }
    proof {
        assert(v@ =~= reason_phrase(st));
    }
    v
}

/// Decide what to do with the bytes read once from a connection.
pub fn on_request_bytes(vhosts: &VirtualHosts, buf: &Vec<u8>) -> (r: Step)
    ensures
        r@ == spec_on_bytes(vhosts@, buf@),
{
    if buf.len() == 0 {
        return Step::CloseSilently;
    }
    let req = match parse_request(buf) {
        None => {
            return Step::Respond(builtin_response(Status::BadRequest));
        },
        Some(r) => r,
    };
    let host = match host_of(&req) {
        None => {
            return Step::Respond(builtin_response(Status::BadRequest));
        },
        Some(h) => h,
    };
    let dir = match vhosts.resolve(&host) {
        None => {
            return Step::Respond(builtin_response(Status::BadRequest));
        },
        Some(d) => d,
    };
    let file = match resolve_path(&dir, &req.path) {
        None => {
            return Step::Respond(builtin_response(Status::BadRequest));
        },
        Some(f) => f,
    };
    Step::ReadFile(file, Pending { dir, stage: Stage::MainFile })
}

/// Decide what to do with the outcome of a file read.
pub fn on_file_result(p: Pending, out: FileOutcome) -> (r: Step)
    ensures
        r@ == spec_on_file(p@, out@),
{
    match p.stage {
        Stage::MainFile => match out {
            FileOutcome::Content(b) => Step::Respond(build_response(Status::Okay, &b)),
            FileOutcome::NotFound => {
                let err = error_doc_path(&p.dir);
                Step::ReadFile(err, Pending { dir: p.dir, stage: Stage::ErrorDoc })
            },
            FileOutcome::OtherError => Step::Respond(builtin_response(Status::ServerError)),
        },
        Stage::ErrorDoc => match out {
            FileOutcome::Content(b) => Step::Respond(build_response(Status::NotFound, &b)),
            FileOutcome::NotFound => Step::Respond(builtin_response(Status::NotFound)),
            FileOutcome::OtherError => Step::Respond(builtin_response(Status::ServerError)),
        },
    }
}

/// What one file read yields over a filesystem modeled as the map from the
/// names of the readable files to their contents.
pub open spec fn spec_outcome(fs: Map<Seq<u8>, Seq<u8>>, file: Seq<u8>) -> FileOutcomeView {
    if fs.dom().contains(file) {
        FileOutcomeView::Content(fs[file])
    } else {
        FileOutcomeView::NotFound
    }
}

/// The bytes a whole connection is answered, over a filesystem modeled as a
/// map: `None` when the connection closes without a response, otherwise the
/// exact response written. This composes [`spec_on_bytes`] with up to two
/// file reads through [`spec_on_file`], which is how a caller drives the
/// pipeline; the step functions never ask for a third read, so the
/// remaining arms are never taken.
pub open spec fn spec_serve(
    t: Seq<VHostView>,
    fs: Map<Seq<u8>, Seq<u8>>,
    buf: Seq<u8>,
) -> Option<Seq<u8>> {
    match spec_on_bytes(t, buf) {
        StepView::CloseSilently => None,
        StepView::Respond(bytes) => Some(bytes),
        StepView::ReadFile(f, p) => match spec_on_file(p, spec_outcome(fs, f)) {
            StepView::CloseSilently => None,
            StepView::Respond(bytes) => Some(bytes),
            StepView::ReadFile(f2, p2) => match spec_on_file(p2, spec_outcome(fs, f2)) {
                StepView::Respond(bytes) => Some(bytes),
                _ => None,
            },
        },
    }
}

/// Driving the pipeline ends after at most two file reads: the step after
/// the first read is never a silent close, a second read only ever names
/// the error document, and the step after it is always a response.
pub proof fn lemma_serve_terminates(p: PendingView, out: FileOutcomeView)
    ensures
        !(spec_on_file(p, out) is CloseSilently),
        spec_on_file(p, out) matches StepView::ReadFile(f2, p2) ==> p.stage == Stage::MainFile
            && f2 == spec_error_doc_path(p.dir) && p2.stage == Stage::ErrorDoc && !(spec_on_file(
            p2,
            out,
        ) is ReadFile),
{
}

/// A request for a file present under the matched document root is served
/// with status 200 and a body byte-identical to the file's contents: the
/// handler asks for exactly the resolved file, and answers its contents with
/// the 200 response whose body suffix is those very bytes.
pub proof fn lemma_present_file_served(
    t: Seq<VHostView>,
    buf: Seq<u8>,
    req: ReqView,
    dir: Seq<u8>,
    file: Seq<u8>,
    content: Seq<u8>,
)
    requires
        buf.len() != 0,
        spec_parse_request(buf) == Some(req),
        spec_host_of(req.headers) matches Some(h) && spec_resolve(t, h) == Some(dir),
        spec_resolve_path(dir, req.path) == Some(file),
    ensures
        spec_on_bytes(t, buf) == StepView::ReadFile(
            file,
            PendingView { dir: dir, stage: Stage::MainFile },
        ),
        spec_on_file(
            PendingView { dir: dir, stage: Stage::MainFile },
            FileOutcomeView::Content(content),
        ) == StepView::Respond(spec_response(Status::Okay, content)),
        ({
            let resp = spec_response(Status::Okay, content);
            resp.subrange(resp.len() - content.len(), resp.len() as int) == content
        }),
{
    let resp = spec_response(Status::Okay, content);
    assert(resp.subrange(resp.len() - content.len(), resp.len() as int) =~= content);
}

/// A request whose `Host` header matches no configured virtual host, or
/// which carries none, is answered with the fixed 400 response and no file
/// is read on its behalf.
pub proof fn lemma_unresolved_host_rejected(t: Seq<VHostView>, buf: Seq<u8>, req: ReqView)
    requires
        buf.len() != 0,
        spec_parse_request(buf) == Some(req),
        match spec_host_of(req.headers) {
            Some(h) => spec_resolve(t, h) is None,
            None => true,
        },
    ensures
        spec_on_bytes(t, buf) == StepView::Respond(spec_builtin_response(Status::BadRequest)),
{
}

/// A connection that closes before sending any byte gets no response: the
/// only step taken is a silent close.
pub proof fn lemma_empty_read_closes(t: Seq<VHostView>, buf: Seq<u8>)
    requires
        buf.len() == 0,
    ensures
        spec_on_bytes(t, buf) == StepView::CloseSilently,
{
}

/// A request whose path holds a `..` traversal never reaches any file read:
/// whatever the table holds, the step is the fixed 400 response.
pub proof fn lemma_traversal_rejected(t: Seq<VHostView>, buf: Seq<u8>, req: ReqView)
    requires
        buf.len() != 0,
        spec_parse_request(buf) == Some(req),
        has_dotdot(req.path),
    ensures
        spec_on_bytes(t, buf) == StepView::Respond(spec_builtin_response(Status::BadRequest)),
{
    match spec_host_of(req.headers) {
        Some(h) => match spec_resolve(t, h) {
            Some(dir) => {
                lemma_no_traversal(dir, req.path);
            },
            None => {},
        },
        None => {},
    }
}

/// A request for the path `/` is handled exactly as a request for
/// `/index.html`: two request heads that agree on their headers and differ
/// only in writing the root path or the default document's name take the
/// same step, whatever the table.
pub proof fn lemma_root_equivalent_to_default_document(
    t: Seq<VHostView>,
    buf1: Seq<u8>,
    buf2: Seq<u8>,
    req1: ReqView,
    req2: ReqView,
)
    requires
        buf1.len() != 0,
        buf2.len() != 0,
        spec_parse_request(buf1) == Some(req1),
        spec_parse_request(buf2) == Some(req2),
        req1.headers == req2.headers,
        req1.path == seq![47u8],
        req2.path == crate::paths::default_document(),
    ensures
        spec_on_bytes(t, buf1) == spec_on_bytes(t, buf2),
{
    match spec_host_of(req1.headers) {
        Some(h) => match spec_resolve(t, h) {
            Some(dir) => {
                crate::paths::lemma_root_is_default_document(dir);
            },
            None => {},
        },
        None => {},
    }
}

/// A missing file under a root with an error document is served that
/// document with status 404: the miss turns into a read of `/404.html`
/// under the same root, and its contents become the 404 response's body.
pub proof fn lemma_missing_file_gets_error_document(dir: Seq<u8>, err_content: Seq<u8>)
    ensures
        spec_on_file(PendingView { dir: dir, stage: Stage::MainFile }, FileOutcomeView::NotFound)
            == StepView::ReadFile(
            spec_error_doc_path(dir),
            PendingView { dir: dir, stage: Stage::ErrorDoc },
        ),
        spec_on_file(
            PendingView { dir: dir, stage: Stage::ErrorDoc },
            FileOutcomeView::Content(err_content),
        ) == StepView::Respond(spec_response(Status::NotFound, err_content)),
{
}

/// End to end over a filesystem modeled as a map: a request whose head
/// parses, whose host resolves to a document root, and whose path resolves
/// to a readable file is answered the 200 response carrying that file's
/// contents, byte for byte.
pub proof fn lemma_serve_present_file(
    t: Seq<VHostView>,
    fs: Map<Seq<u8>, Seq<u8>>,
    buf: Seq<u8>,
    req: ReqView,
    dir: Seq<u8>,
    file: Seq<u8>,
)
    requires
        buf.len() != 0,
        spec_parse_request(buf) == Some(req),
        spec_host_of(req.headers) matches Some(h) && spec_resolve(t, h) == Some(dir),
        spec_resolve_path(dir, req.path) == Some(file),
        fs.dom().contains(file),
    ensures
        spec_serve(t, fs, buf) == Some(spec_response(Status::Okay, fs[file])),
{
}

/// End to end over a filesystem modeled as a map: a request whose resolved
/// file is missing, under a root whose error document is readable, is
/// answered the 404 response carrying the error document's contents.
pub proof fn lemma_serve_missing_file(
    t: Seq<VHostView>,
    fs: Map<Seq<u8>, Seq<u8>>,
    buf: Seq<u8>,
    req: ReqView,
    dir: Seq<u8>,
    file: Seq<u8>,
)
    requires
        buf.len() != 0,
        spec_parse_request(buf) == Some(req),
        spec_host_of(req.headers) matches Some(h) && spec_resolve(t, h) == Some(dir),
        spec_resolve_path(dir, req.path) == Some(file),
        !fs.dom().contains(file),
        fs.dom().contains(spec_error_doc_path(dir)),
    ensures
        spec_serve(t, fs, buf) == Some(
            spec_response(Status::NotFound, fs[spec_error_doc_path(dir)]),
        ),
{
}

} // verus!
