//! The exec terminal: a shell in a container, driven over a socket.
//!
//! The socket names a node and a container in its query. Once the node is
//! resolved and the exec is started, text from the client is written to the
//! shell, frames from the shell are sent to the client, and a disconnect
//! ends the shell. [`ExecSession::step`] takes what happened and says what
//! to do next; the program around it does the sending and the writing.

use vstd::prelude::*;
use vstd::string::*;
use crate::text::string_pairs;
use crate::env::{entries_map, env_get, lookup};
use crate::text::concat2;

verus! {

/// Base that turns the target of a socket's request into a whole address.
pub const QUERY_BASE_URL: &'static str = "http://example.com";

/// Event that tells the client of a failure.
pub const EVENT_ERR: &'static str = "err";

/// Event that tells the client that the shell is attached.
pub const EVENT_CONNECTED: &'static str = "connected";

/// Event that tells the client that the shell has ended.
pub const EVENT_DISCONNECTED: &'static str = "disconnected";

/// Event that carries output of the shell.
pub const EVENT_OUT: &'static str = "out";

/// New size of the terminal.
#[derive(Debug, Clone, Copy, PartialEq, Eq, Structural)]
pub struct ResizeInfo {
    /// Rows.
    pub height: u32,
    /// Columns.
    pub width: u32,
}

/// The query pairs of an address, in their order, decoded; or the message
/// with which the address was refused.
pub uninterp spec fn url_query_pairs(url: Seq<char>) -> Result<
    Seq<(Seq<char>, Seq<char>)>,
    Seq<char>,
>;

/// What a parse of an address returns, as a mathematical value.
pub open spec fn query_view(r: Result<Vec<(String, String)>, String>) -> Result<
    Seq<(Seq<char>, Seq<char>)>,
    Seq<char>,
> {
    match r {
        Ok(v) => Ok(string_pairs(v@)),
        Err(e) => Err(e@),
    }
}

/// Calls `url::Url::parse` and, on the parsed address, `query_pairs`. The
/// result is a function of the address: its query as decoded pairs in
/// order, or the text of the parser's error.
#[verifier::external_body]
fn query_pairs(url: &str) -> (r: Result<Vec<(String, String)>, String>)
    ensures
        query_view(r) == url_query_pairs(url@),
{
    match url::Url::parse(url) {
        Ok(u) => Ok(u.query_pairs().into_owned().collect()),
        Err(e) => Err(e.to_string()),
    }
}

/// Message of a socket that does not name both node and container.
pub const PARAMS_ERROR: &'static str = "params error";

/// What a socket names, as a mathematical value.
pub open spec fn params_view(r: Result<(String, String), String>) -> Result<
    (Seq<char>, Seq<char>),
    Seq<char>,
> {
    match r {
        Ok(p) => Ok((p.0@, p.1@)),
        Err(e) => Err(e@),
    }
}

/// The node and the container that query pairs name: the last `node_name`
/// and the last `id`. Both must be there.
pub open spec fn picked_params(pairs: Seq<(Seq<char>, Seq<char>)>) -> Result<
    (Seq<char>, Seq<char>),
    Seq<char>,
> {
    match (env_get(entries_map(pairs), "node_name"@), env_get(entries_map(pairs), "id"@)) {
        (Some(n), Some(i)) => Ok((n, i)),
        _ => Err(PARAMS_ERROR@),
    }
}

/// What the target of a socket's request names: what its query pairs name,
/// or the message with which the address was refused.
pub open spec fn query_params(uri: Seq<char>) -> Result<(Seq<char>, Seq<char>), Seq<char>> {
    match url_query_pairs(QUERY_BASE_URL@ + uri) {
        Ok(pairs) => picked_params(pairs),
        Err(e) => Err(e),
    }
}

/// The node and the container that query pairs name.
pub fn pick_query_params(pairs: &Vec<(String, String)>) -> (r: Result<(String, String), String>)
    ensures
        params_view(r) == picked_params(string_pairs(pairs@)),
{
    let node_name = lookup(pairs, "node_name");
    let id = lookup(pairs, "id");
    match (node_name, id) {
        (Some(n), Some(i)) => Ok((n, i)),
        _ => Err(PARAMS_ERROR.to_owned()),
    }
}

/// The node and the container that the target of a socket's request names.
/// The target is read as an address below [`QUERY_BASE_URL`]; an address
/// that is refused gives the parser's message.
pub fn get_query_params(uri: &str) -> (r: Result<(String, String), String>)
    ensures
        params_view(r) == query_params(uri@),
{
    let full_url = concat2(QUERY_BASE_URL, uri);
    match query_pairs(full_url.as_str()) {
        Ok(pairs) => pick_query_params(&pairs),
        Err(e) => Err(e),
    }
}

/// A size as the engine takes it: each side in sixteen bits, the higher
/// bits dropped.
pub fn resize_docker_cmd(info: &ResizeInfo) -> (r: (u16, u16))
    ensures
        r.0 == info.height % 0x10000,
        r.1 == info.width % 0x10000,
{
    let h = info.height % 0x10000;
    let w = info.width % 0x10000;
    (h as u16, w as u16)
}

/// The text of bytes that may not be text: what is not UTF-8 is replaced.
pub uninterp spec fn lossy_text(bytes: Seq<u8>) -> Seq<char>;

/// Calls `String::from_utf8_lossy`, which reads the bytes as UTF-8 and puts
/// the replacement character for what is not. The result is a function of
/// the bytes.
#[verifier::external_body]
fn from_utf8_lossy(bytes: &Vec<u8>) -> (r: String)
    ensures
        r@ == lossy_text(bytes@),
{
    String::from_utf8_lossy(bytes).into_owned()
}

/// Where a session stands.
#[derive(Debug, Clone, Copy, PartialEq, Eq, Structural)]
pub enum ExecPhase {
    /// The socket is open, nothing is known yet.
    Opened,
    /// The node is being resolved.
    Resolving,
    /// The exec is being created and started.
    Starting,
    /// The shell is attached.
    Attached,
    /// The session is over.
    Closed,
}

/// A session of the exec terminal.
#[derive(Debug)]
pub struct ExecSession {
    pub phase: ExecPhase,
    /// The node, once the socket has named it.
    pub node_name: String,
    /// The container, once the socket has named it.
    pub container: String,
    /// The exec, once it is started.
    pub exec_id: String,
}

/// A session as a mathematical value.
pub struct ExecSessionView {
    pub phase: ExecPhase,
    pub node_name: Seq<char>,
    pub container: Seq<char>,
    pub exec_id: Seq<char>,
}

impl View for ExecSession {
    type V = ExecSessionView;

    open spec fn view(&self) -> ExecSessionView {
        ExecSessionView {
            phase: self.phase,
            node_name: self.node_name@,
            container: self.container@,
            exec_id: self.exec_id@,
        }
    }
}

/// What happened.
#[derive(Debug)]
pub enum ExecEvent {
    /// The socket was opened; what its query names, or why it names nothing.
    Connected(Result<(String, String), String>),
    /// The node was looked up: whether it is known, or why the lookup failed.
    NodeResolved(Result<bool, String>),
    /// The exec was started with this id and is attached or not; or it
    /// failed with this message.
    ExecStarted(Result<(String, bool), String>),
    /// The client sent text.
    Data(String),
    /// The client resized its terminal.
    Resize(ResizeInfo),
    /// The shell wrote to standard output.
    StdOut(Vec<u8>),
    /// The shell wrote to standard error.
    StdErr(Vec<u8>),
    /// The shell sent a frame of another kind.
    OtherOutput,
    /// The client went away.
    Disconnect,
}

/// What happened, as a mathematical value.
pub enum ExecEventView {
    Connected(Result<(Seq<char>, Seq<char>), Seq<char>>),
    NodeResolved(Result<bool, Seq<char>>),
    ExecStarted(Result<(Seq<char>, bool), Seq<char>>),
    Data(Seq<char>),
    Resize(ResizeInfo),
    StdOut(Seq<u8>),
    StdErr(Seq<u8>),
    OtherOutput,
    Disconnect,
}

impl View for ExecEvent {
    type V = ExecEventView;

    open spec fn view(&self) -> ExecEventView {
        match self {
            ExecEvent::Connected(Ok(p)) => ExecEventView::Connected(Ok((p.0@, p.1@))),
            ExecEvent::Connected(Err(e)) => ExecEventView::Connected(Err(e@)),
            ExecEvent::NodeResolved(Ok(b)) => ExecEventView::NodeResolved(Ok(*b)),
            ExecEvent::NodeResolved(Err(e)) => ExecEventView::NodeResolved(Err(e@)),
            ExecEvent::ExecStarted(Ok(p)) => ExecEventView::ExecStarted(Ok((p.0@, p.1))),
            ExecEvent::ExecStarted(Err(e)) => ExecEventView::ExecStarted(Err(e@)),
            ExecEvent::Data(d) => ExecEventView::Data(d@),
            ExecEvent::Resize(r) => ExecEventView::Resize(*r),
            ExecEvent::StdOut(b) => ExecEventView::StdOut(b@),
            ExecEvent::StdErr(b) => ExecEventView::StdErr(b@),
            ExecEvent::OtherOutput => ExecEventView::OtherOutput,
            ExecEvent::Disconnect => ExecEventView::Disconnect,
        }
    }
}

/// What to do.
#[derive(Debug)]
pub enum ExecAction {
    /// Send an event with this text to the client.
    Emit { event: String, data: String },
    /// Look the node up in the registry.
    ResolveNode { name: String },
    /// Create and start an exec of `sh` in the container, with a terminal
    /// and with input, output and errors attached.
    StartExec { container: String },
    /// Write this text to the shell's input.
    Write { data: String },
    /// Flush the shell's input.
    Flush,
    /// Tell the engine the new size of the exec's terminal.
    ResizeExec { exec_id: String, height: u16, width: u16 },
    /// Stop reading the shell's output.
    CancelReader,
    /// Drop the socket.
    Close,
}

/// What to do, as a mathematical value.
pub enum ExecActionView {
    Emit { event: Seq<char>, data: Seq<char> },
    ResolveNode { name: Seq<char> },
    StartExec { container: Seq<char> },
    Write { data: Seq<char> },
    Flush,
    ResizeExec { exec_id: Seq<char>, height: u16, width: u16 },
    CancelReader,
    Close,
}

impl View for ExecAction {
    type V = ExecActionView;

    open spec fn view(&self) -> ExecActionView {
        match self {
            ExecAction::Emit { event, data } => ExecActionView::Emit { event: event@, data: data@ },
            ExecAction::ResolveNode { name } => ExecActionView::ResolveNode { name: name@ },
            ExecAction::StartExec { container } => ExecActionView::StartExec {
                container: container@,
            },
            ExecAction::Write { data } => ExecActionView::Write { data: data@ },
            ExecAction::Flush => ExecActionView::Flush,
            ExecAction::ResizeExec { exec_id, height, width } => ExecActionView::ResizeExec {
                exec_id: exec_id@,
                height: *height,
                width: *width,
            },
            ExecAction::CancelReader => ExecActionView::CancelReader,
            ExecAction::Close => ExecActionView::Close,
        }
    }
}

/// The views of a sequence of actions.
pub open spec fn action_views(v: Seq<ExecAction>) -> Seq<ExecActionView> {
    v.map_values(|a: ExecAction| a@)
}

/// An `err` event with a message, then the end of the socket.
pub open spec fn fail(msg: Seq<char>) -> Seq<ExecActionView> {
    seq![ExecActionView::Emit { event: EVENT_ERR@, data: msg }, ExecActionView::Close]
}

/// The session with another phase.
pub open spec fn in_phase(s: ExecSessionView, phase: ExecPhase) -> ExecSessionView {
    ExecSessionView { phase, ..s }
}

/// What an event leads to: the session afterwards and what to do, in order.
/// An event that does not fit the phase changes nothing and asks nothing.
pub open spec fn exec_step(s: ExecSessionView, e: ExecEventView) -> (
    ExecSessionView,
    Seq<ExecActionView>,
) {
    match (s.phase, e) {
        (ExecPhase::Opened, ExecEventView::Connected(Ok(p))) => (
            ExecSessionView {
                phase: ExecPhase::Resolving,
                node_name: p.0,
                container: p.1,
                exec_id: s.exec_id,
            },
            seq![ExecActionView::ResolveNode { name: p.0 }],
        ),
        (ExecPhase::Opened, ExecEventView::Connected(Err(msg))) => (
            in_phase(s, ExecPhase::Closed),
            fail(msg),
        ),
        (ExecPhase::Resolving, ExecEventView::NodeResolved(Ok(true))) => (
            in_phase(s, ExecPhase::Starting),
            seq![ExecActionView::StartExec { container: s.container }],
        ),
        (ExecPhase::Resolving, ExecEventView::NodeResolved(Ok(false))) => (
            in_phase(s, ExecPhase::Closed),
            fail("node not found"@),
        ),
        (ExecPhase::Resolving, ExecEventView::NodeResolved(Err(msg))) => (
            in_phase(s, ExecPhase::Closed),
            fail(msg),
        ),
        (ExecPhase::Starting, ExecEventView::ExecStarted(Ok(p))) => if p.1 {
            (
                ExecSessionView { phase: ExecPhase::Attached, exec_id: p.0, ..s },
                seq![ExecActionView::Emit { event: EVENT_CONNECTED@, data: "ok"@ }],
            )
        } else {
            (
                in_phase(s, ExecPhase::Closed),
                seq![
                    ExecActionView::Emit { event: EVENT_CONNECTED@, data: "ok"@ },
                    ExecActionView::Emit { event: EVENT_ERR@, data: "can not connect to docker"@ },
                    ExecActionView::Close,
                ],
            )
        },
        (ExecPhase::Starting, ExecEventView::ExecStarted(Err(msg))) => (
            in_phase(s, ExecPhase::Closed),
            fail(msg),
        ),
        (ExecPhase::Attached, ExecEventView::Data(d)) => (
            s,
            seq![ExecActionView::Write { data: d }, ExecActionView::Flush],
        ),
        (ExecPhase::Attached, ExecEventView::Resize(r)) => (
            s,
            seq![
                ExecActionView::ResizeExec {
                    exec_id: s.exec_id,
                    height: (r.height % 0x10000) as u16,
                    width: (r.width % 0x10000) as u16,
                },
            ],
        ),
        (ExecPhase::Attached, ExecEventView::StdOut(b)) => (
            s,
            seq![ExecActionView::Emit { event: EVENT_OUT@, data: lossy_text(b) }],
        ),
        (ExecPhase::Attached, ExecEventView::StdErr(b)) => (
            s,
            seq![ExecActionView::Emit { event: EVENT_OUT@, data: lossy_text(b) }],
        ),
        (ExecPhase::Attached, ExecEventView::Disconnect) => (
            in_phase(s, ExecPhase::Closed),
            seq![
                ExecActionView::Write { data: "exit\n"@ },
                ExecActionView::Flush,
                ExecActionView::CancelReader,
                ExecActionView::Emit { event: EVENT_DISCONNECTED@, data: "ok"@ },
            ],
        ),
        (ExecPhase::Closed, _) => (s, Seq::empty()),
        (_, ExecEventView::Disconnect) => (in_phase(s, ExecPhase::Closed), Seq::empty()),
        _ => (s, Seq::empty()),
    }
}

fn emit(event: &str, data: &str) -> (a: ExecAction)
    ensures
        a@ == (ExecActionView::Emit { event: event@, data: data@ }),
{
    ExecAction::Emit { event: event.to_owned(), data: data.to_owned() }
}

fn failed(msg: &str) -> (v: Vec<ExecAction>)
    ensures
        action_views(v@) == fail(msg@),
{
    let mut v: Vec<ExecAction> = Vec::new();
    v.push(emit(EVENT_ERR, msg));
    v.push(ExecAction::Close);
    assert(action_views(v@) =~= fail(msg@));
    v
}

fn one(a: ExecAction) -> (v: Vec<ExecAction>)
    ensures
        action_views(v@) == seq![a@],
{
    let mut v: Vec<ExecAction> = Vec::new();
    v.push(a);
    assert(action_views(v@) =~= seq![a@]);
    v
}

fn none() -> (v: Vec<ExecAction>)
    ensures
        action_views(v@) == Seq::<ExecActionView>::empty(),
{
    let v: Vec<ExecAction> = Vec::new();
    assert(action_views(v@) =~= Seq::<ExecActionView>::empty());
    v
}

impl ExecSession {
    /// A session whose socket was just opened.
    pub fn new() -> (s: ExecSession)
        ensures
            s@ == (ExecSessionView {
                phase: ExecPhase::Opened,
                node_name: Seq::empty(),
                container: Seq::empty(),
                exec_id: Seq::empty(),
            }),
    {
        ExecSession {
            phase: ExecPhase::Opened,
            node_name: String::new(),
            container: String::new(),
            exec_id: String::new(),
        }
    }

    /// Takes an event and says what to do, in order.
    pub fn step(&mut self, event: ExecEvent) -> (actions: Vec<ExecAction>)
        ensures
            final(self)@ == exec_step(old(self)@, event@).0,
            action_views(actions@) == exec_step(old(self)@, event@).1,
    {
        match self.phase {
            ExecPhase::Closed => none(),
            ExecPhase::Opened => match event {
                ExecEvent::Connected(Ok(p)) => {
                    let a = ExecAction::ResolveNode { name: p.0.clone() };
                    self.phase = ExecPhase::Resolving;
                    self.node_name = p.0;
                    self.container = p.1;
                    one(a)
                },
                ExecEvent::Connected(Err(msg)) => {
                    self.phase = ExecPhase::Closed;
                    failed(msg.as_str())
                },
                ExecEvent::Disconnect => {
                    self.phase = ExecPhase::Closed;
                    none()
                },
                _ => none(),
            },
            ExecPhase::Resolving => match event {
                ExecEvent::NodeResolved(Ok(true)) => {
                    self.phase = ExecPhase::Starting;
                    one(ExecAction::StartExec { container: self.container.clone() })
                },
                ExecEvent::NodeResolved(Ok(false)) => {
                    self.phase = ExecPhase::Closed;
                    failed("node not found")
                },
                ExecEvent::NodeResolved(Err(msg)) => {
                    self.phase = ExecPhase::Closed;
                    failed(msg.as_str())
                },
                ExecEvent::Disconnect => {
                    self.phase = ExecPhase::Closed;
                    none()
                },
                _ => none(),
            },
            ExecPhase::Starting => match event {
                ExecEvent::ExecStarted(Ok(p)) => {
                    let mut v: Vec<ExecAction> = Vec::new();
                    v.push(emit(EVENT_CONNECTED, "ok"));
                    if p.1 {
                        self.phase = ExecPhase::Attached;
                        self.exec_id = p.0;
                        assert(action_views(v@) =~= seq![
                            ExecActionView::Emit { event: EVENT_CONNECTED@, data: "ok"@ },
                        ]);
                    } else {
                        self.phase = ExecPhase::Closed;
                        v.push(emit(EVENT_ERR, "can not connect to docker"));
                        v.push(ExecAction::Close);
                        assert(action_views(v@) =~= seq![
                            ExecActionView::Emit { event: EVENT_CONNECTED@, data: "ok"@ },
                            ExecActionView::Emit {
                                event: EVENT_ERR@,
                                data: "can not connect to docker"@,
                            },
                            ExecActionView::Close,
                        ]);
                    }
                    v
                },
                ExecEvent::ExecStarted(Err(msg)) => {
                    self.phase = ExecPhase::Closed;
                    failed(msg.as_str())
                },
                ExecEvent::Disconnect => {
                    self.phase = ExecPhase::Closed;
                    none()
                },
                _ => none(),
            },
            ExecPhase::Attached => match event {
                ExecEvent::Data(d) => {
                    let mut v: Vec<ExecAction> = Vec::new();
                    v.push(ExecAction::Write { data: d });
                    v.push(ExecAction::Flush);
                    assert(action_views(v@) =~= seq![
                        ExecActionView::Write { data: d@ },
                        ExecActionView::Flush,
                    ]);
                    v
                },
                ExecEvent::Resize(r) => {
                    let size = resize_docker_cmd(&r);
                    one(
                        ExecAction::ResizeExec {
                            exec_id: self.exec_id.clone(),
                            height: size.0,
                            width: size.1,
                        },
                    )
                },
                ExecEvent::StdOut(b) => {
                    let text = from_utf8_lossy(&b);
                    one(emit(EVENT_OUT, text.as_str()))
                },
                ExecEvent::StdErr(b) => {
                    let text = from_utf8_lossy(&b);
                    one(emit(EVENT_OUT, text.as_str()))
                },
                ExecEvent::Disconnect => {
                    self.phase = ExecPhase::Closed;
                    let mut v: Vec<ExecAction> = Vec::new();
                    v.push(ExecAction::Write { data: "exit\n".to_owned() });
                    v.push(ExecAction::Flush);
                    v.push(ExecAction::CancelReader);
                    v.push(emit(EVENT_DISCONNECTED, "ok"));
                    assert(action_views(v@) =~= seq![
                        ExecActionView::Write { data: "exit\n"@ },
                        ExecActionView::Flush,
                        ExecActionView::CancelReader,
                        ExecActionView::Emit { event: EVENT_DISCONNECTED@, data: "ok"@ },
                    ]);
                    v
                },
                _ => none(),
            },
        }
    }
}

/// A session that is over stays over and asks for nothing more.
pub proof fn lemma_closed_is_final(s: ExecSessionView, e: ExecEventView)
    requires
        s.phase == ExecPhase::Closed,
    ensures
        exec_step(s, e).0 == s,
        exec_step(s, e).1.len() == 0,
{
}

/// Nothing is written to a shell, and its size is not set, unless the shell
/// is attached.
pub proof fn lemma_writes_need_attachment(s: ExecSessionView, e: ExecEventView, i: int)
    requires
        0 <= i < exec_step(s, e).1.len(),
        exec_step(s, e).1[i] is Write || exec_step(s, e).1[i] is ResizeExec || exec_step(
            s,
            e,
        ).1[i] is Flush,
    ensures
        s.phase == ExecPhase::Attached,
{
}

/// A disconnect ends the session, whatever its phase.
pub proof fn lemma_disconnect_closes(s: ExecSessionView)
    ensures
        exec_step(s, ExecEventView::Disconnect).0.phase == ExecPhase::Closed,
{
}

} // verus!
