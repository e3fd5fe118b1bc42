//! `prism serve`: arguments of the WebSocket server and the decisions it
//! takes while streaming a trace replay.

use vstd::prelude::*;

use serde_json::Value;

use crate::text::{decimal, decimal_string};

verus! {

/// Arguments for the serve command.
#[derive(Debug, Clone)]
pub struct ServeArgs {
    /// Port to listen on for WebSocket connections.
    pub port: u16,
    /// Host to bind to.
    pub host: String,
}

/// What a serve command line says.
#[verifier::ext_equal]
pub struct ServeArgsView {
    pub port: u16,
    pub host: Seq<char>,
}

impl View for ServeArgs {
    type V = ServeArgsView;

    open spec fn view(&self) -> ServeArgsView {
        ServeArgsView { port: self.port, host: self.host@ }
    }
}


/// A JSON value (`serde_json::Value`), carried through unread.
#[verifier::external_type_specification]
#[verifier::external_body]
pub struct ExJsonValue(serde_json::Value);

/// The address the server binds to: `host:port`.
pub fn bind_address(host: &str, port: u16) -> (r: String)
    ensures
        r@ == host@ + ":"@ + decimal(port as nat),
{
    let mut addr = host.to_owned();
    addr.append(":");
    let p = decimal_string(port as u64);
    addr.append(p.as_str());
    addr
}

/// Message types sent over WebSocket during trace streaming.
#[derive(Debug)]
pub enum TraceStreamMessage {
    /// Trace session started.
    TraceStarted { tx_hash: String, ledger_sequence: u32 },
    /// A new trace node (invocation or host call) was resolved.
    TraceNode { node: Value, path: Vec<usize> },
    /// Resource profile update.
    ResourceUpdate { cpu_used: u64, memory_used: u64, cpu_limit: u64, memory_limit: u64 },
    /// State diff entry discovered.
    StateDiffEntry {
        key: String,
        before: Option<String>,
        after: Option<String>,
        change_type: String,
    },
    /// Trace completed successfully.
    TraceCompleted { total_nodes: usize, duration_ms: u64 },
    /// An error occurred during tracing.
    TraceError { error: String },
}

/// `Some(s@)` for `Some(s)`.
pub open spec fn opt_string(o: Option<String>) -> Option<Seq<char>> {
    match o {
        Some(s) => Some(s@),
        None => None,
    }
}

/// A trace stream message as mathematical values.
#[verifier::ext_equal]
pub enum TraceStreamMessageView {
    TraceStarted { tx_hash: Seq<char>, ledger_sequence: u32 },
    TraceNode { node: Value, path: Seq<usize> },
    ResourceUpdate { cpu_used: u64, memory_used: u64, cpu_limit: u64, memory_limit: u64 },
    StateDiffEntry {
        key: Seq<char>,
        before: Option<Seq<char>>,
        after: Option<Seq<char>>,
        change_type: Seq<char>,
    },
    TraceCompleted { total_nodes: usize, duration_ms: u64 },
    TraceError { error: Seq<char> },
}

impl View for TraceStreamMessage {
    type V = TraceStreamMessageView;

    open spec fn view(&self) -> TraceStreamMessageView {
        match self {
            TraceStreamMessage::TraceStarted { tx_hash, ledger_sequence } => {
                TraceStreamMessageView::TraceStarted { tx_hash: tx_hash@, ledger_sequence: *ledger_sequence }
            },
            TraceStreamMessage::TraceNode { node, path } => {
                TraceStreamMessageView::TraceNode { node: *node, path: path@ }
            },
            TraceStreamMessage::ResourceUpdate { cpu_used, memory_used, cpu_limit, memory_limit } => {
                TraceStreamMessageView::ResourceUpdate {
                    cpu_used: *cpu_used,
                    memory_used: *memory_used,
                    cpu_limit: *cpu_limit,
                    memory_limit: *memory_limit,
                }
            },
            TraceStreamMessage::StateDiffEntry { key, before, after, change_type } => {
                TraceStreamMessageView::StateDiffEntry {
                    key: key@,
                    before: opt_string(*before),
                    after: opt_string(*after),
                    change_type: change_type@,
                }
            },
            TraceStreamMessage::TraceCompleted { total_nodes, duration_ms } => {
                TraceStreamMessageView::TraceCompleted {
                    total_nodes: *total_nodes,
                    duration_ms: *duration_ms,
                }
            },
            TraceStreamMessage::TraceError { error } => TraceStreamMessageView::TraceError {
                error: error@,
            },
        }
    }
}

/// The CPU limit reported with resource updates (instructions).
pub const CPU_LIMIT: u64 = 100_000_000;

/// The memory limit reported with resource updates (bytes): 40 MiB.
pub const MEMORY_LIMIT: u64 = 41_943_040;

/// A resource update is sent with the first trace node and every tenth after it.
pub open spec fn sends_resource_update(index: nat) -> bool {
    index % 10 == 0
}

/// The messages streamed for the trace node at `index` (counting from 0):
/// the node, then a resource update where one is due.
pub open spec fn node_stream(index: nat, node: Value, cpu: u64, memory: u64) -> Seq<TraceStreamMessageView> {
    let n = TraceStreamMessageView::TraceNode { node, path: seq![index as usize] };
    if sends_resource_update(index) {
        seq![
            n,
            TraceStreamMessageView::ResourceUpdate {
                cpu_used: cpu,
                memory_used: memory,
                cpu_limit: CPU_LIMIT,
                memory_limit: MEMORY_LIMIT,
            },
        ]
    } else {
        seq![n]
    }
}

/// The views of a list of messages.
pub open spec fn messages_view(ms: Seq<TraceStreamMessage>) -> Seq<TraceStreamMessageView> {
    ms.map_values(|m: TraceStreamMessage| m@)
}

/// The messages to stream for one resolved trace node.
pub fn node_messages(index: usize, node: Value, total_cpu: u64, total_memory: u64) -> (r: Vec<TraceStreamMessage>)
    ensures
        messages_view(r@) == node_stream(index as nat, node, total_cpu, total_memory),
{
    let mut path: Vec<usize> = Vec::new();
    path.push(index);
    let mut r: Vec<TraceStreamMessage> = Vec::new();
    r.push(TraceStreamMessage::TraceNode { node, path });
    if index % 10 == 0 {
        r.push(
            TraceStreamMessage::ResourceUpdate {
                cpu_used: total_cpu,
                memory_used: total_memory,
                cpu_limit: CPU_LIMIT,
                memory_limit: MEMORY_LIMIT,
            },
        );
    }
    assert(path@ =~= seq![index]);
    assert(messages_view(r@) =~= node_stream(index as nat, node, total_cpu, total_memory));
    r
}

/// The message that opens a trace session. A session sends it once, first,
/// before the ledger state is reconstructed: its ledger sequence is 0.
pub fn started_message(tx_hash: &str, ledger_sequence: u32) -> (r: TraceStreamMessage)
    ensures
        r@ == (TraceStreamMessageView::TraceStarted { tx_hash: tx_hash@, ledger_sequence }),
{
    TraceStreamMessage::TraceStarted { tx_hash: tx_hash.to_owned(), ledger_sequence }
}

/// The stage of a trace replay that failed.
#[derive(Debug, Clone, Copy, PartialEq, Eq, Structural)]
pub enum ReplayStage {
    /// Reconstructing the ledger state the transaction ran against.
    ReconstructState,
    /// Executing the transaction in the tracing sandbox.
    Execute,
    /// Turning a trace event into the JSON of a trace node.
    SerializeNode,
    /// Computing the state diff of the execution.
    ComputeDiff,
}

/// The error message streamed when a stage of the replay fails.
pub open spec fn failure_text(stage: ReplayStage, error: Seq<char>) -> Seq<char> {
    match stage {
        ReplayStage::ReconstructState => "Failed to reconstruct state: "@ + error,
        ReplayStage::Execute => "Sandbox execution failed: "@ + error,
        ReplayStage::SerializeNode => "Failed to serialize trace node: "@ + error,
        ReplayStage::ComputeDiff => "Failed to compute state diff: "@ + error,
    }
}

/// The message streamed when a stage of the replay fails.
pub fn failure_message(stage: ReplayStage, error: &str) -> (r: TraceStreamMessage)
    ensures
        r@ == (TraceStreamMessageView::TraceError { error: failure_text(stage, error@) }),
{
    let mut text = match stage {
        ReplayStage::ReconstructState => "Failed to reconstruct state: ".to_owned(),
        ReplayStage::Execute => "Sandbox execution failed: ".to_owned(),
        ReplayStage::SerializeNode => "Failed to serialize trace node: ".to_owned(),
        ReplayStage::ComputeDiff => "Failed to compute state diff: ".to_owned(),
    };
    text.append(error);
    TraceStreamMessage::TraceError { error: text }
}

/// The message streamed for one entry of the state diff.
pub fn diff_entry_message(
    key: String,
    before: Option<String>,
    after: Option<String>,
    change_type: String,
) -> (r: TraceStreamMessage)
    ensures
        r@ == (TraceStreamMessageView::StateDiffEntry {
            key: key@,
            before: opt_string(before),
            after: opt_string(after),
            change_type: change_type@,
        }),
{
    TraceStreamMessage::StateDiffEntry { key, before, after, change_type }
}

/// The message that closes a successful trace session.
pub fn completed_message(total_nodes: usize, duration_ms: u64) -> (r: TraceStreamMessage)
    ensures
        r@ == (TraceStreamMessageView::TraceCompleted { total_nodes, duration_ms }),
{
    TraceStreamMessage::TraceCompleted { total_nodes, duration_ms }
}

/// The messages streamed for the first `n` trace nodes, in order.
pub open spec fn nodes_stream(nodes: Seq<Value>, cpu: u64, memory: u64) -> Seq<TraceStreamMessageView>
    decreases nodes.len(),
{
    if nodes.len() == 0 {
        Seq::empty()
    } else {
        nodes_stream(nodes.drop_last(), cpu, memory) + node_stream(
            (nodes.len() - 1) as nat,
            nodes.last(),
            cpu,
            memory,
        )
    }
}

/// The number of resource updates among some messages.
pub open spec fn resource_updates(ms: Seq<TraceStreamMessageView>) -> nat
    decreases ms.len(),
{
    if ms.len() == 0 {
        0
    } else {
        resource_updates(ms.drop_last()) + if ms.last() is ResourceUpdate {
            1nat
        } else {
            0nat
        }
    }
}

proof fn lemma_resource_updates_concat(a: Seq<TraceStreamMessageView>, b: Seq<TraceStreamMessageView>)
    ensures
        resource_updates(a + b) == resource_updates(a) + resource_updates(b),
    decreases b.len(),
{
    if b.len() > 0 {
        assert((a + b).drop_last() =~= a + b.drop_last());
        lemma_resource_updates_concat(a, b.drop_last());
    } else {
        assert(a + b =~= a);
    }
}

/// Streaming `n` trace nodes sends one message per node and, besides, one
/// resource update for every started run of ten nodes: `ceil(n / 10)`.
pub proof fn law_resource_update_cadence(nodes: Seq<Value>, cpu: u64, memory: u64)
    ensures
        resource_updates(nodes_stream(nodes, cpu, memory)) == (nodes.len() + 9) / 10,
        nodes_stream(nodes, cpu, memory).len() == nodes.len() + (nodes.len() + 9) / 10,
    decreases nodes.len(),
{
    if nodes.len() > 0 {
        let k = (nodes.len() - 1) as nat;
        law_resource_update_cadence(nodes.drop_last(), cpu, memory);
        let last = node_stream(k, nodes.last(), cpu, memory);
        lemma_resource_updates_concat(nodes_stream(nodes.drop_last(), cpu, memory), last);
        reveal_with_fuel(resource_updates, 3);
        assert(seq![last[0]].drop_last() =~= Seq::<TraceStreamMessageView>::empty());
        if sends_resource_update(k) {
            assert(last.drop_last() =~= seq![last[0]]);
        }
        assert(resource_updates(last) == if sends_resource_update(k) {
            1nat
        } else {
            0nat
        });
        assert((k + 1 + 9) / 10 == (k + 9) / 10 + if k % 10 == 0 {
            1nat
        } else {
            0nat
        });
    }
}

/// What a client sent over the WebSocket connection.
#[derive(Debug, Clone)]
pub enum IncomingFrame {
    /// A text frame, with the transaction hash of the trace request it
    /// holds, where it holds one.
    Text { text: String, request_tx_hash: Option<String> },
    /// A ping, with its payload.
    Ping(Vec<u8>),
    /// The client closed the connection.
    Close,
    /// Reading from the connection failed.
    Failed,
    /// Any other frame (binary, pong).
    Other,
}

/// What the server does about a frame.
#[derive(Debug, Clone)]
pub enum ConnectionAction {
    /// Replay the transaction and stream its trace to the client.
    StartTrace { tx_hash: String },
    /// Log the text as an invalid trace request and carry on.
    RejectRequest { text: String },
    /// Answer a ping with a pong carrying the same payload.
    SendPong(Vec<u8>),
    /// Stop serving the connection.
    Close,
    /// Carry on.
    Ignore,
}

/// Decides what to do about a frame from the client: a text frame holding a
/// trace request starts a trace, any other text is rejected, a ping is
/// answered with a pong of the same payload, a close or a read failure
/// ends the connection, and other frames are ignored.
pub fn on_frame(frame: IncomingFrame) -> (r: ConnectionAction)
    ensures
        match frame {
            IncomingFrame::Text { text, request_tx_hash } => match request_tx_hash {
                Some(h) => (r matches ConnectionAction::StartTrace { tx_hash } && tx_hash@ == h@),
                None => (r matches ConnectionAction::RejectRequest { text: t } && t@ == text@),
            },
            IncomingFrame::Ping(p) => (r matches ConnectionAction::SendPong(q) && q@ == p@),
            IncomingFrame::Close | IncomingFrame::Failed => r is Close,
            IncomingFrame::Other => r is Ignore,
        },
{
    match frame {
        IncomingFrame::Text { text, request_tx_hash } => match request_tx_hash {
            Some(h) => ConnectionAction::StartTrace { tx_hash: h },
            None => ConnectionAction::RejectRequest { text },
        },
        IncomingFrame::Ping(p) => ConnectionAction::SendPong(p),
        IncomingFrame::Close | IncomingFrame::Failed => ConnectionAction::Close,
        IncomingFrame::Other => ConnectionAction::Ignore,
    }
}


/// What happened while forwarding a trace replay's messages to the client.
#[derive(Debug, Clone, Copy, PartialEq, Eq, Structural)]
pub enum ForwardEvent {
    /// The next message came off the channel; it could be turned into JSON
    /// (`serialized`) or not.
    Update { serialized: bool },
    /// The receiver fell behind and messages were dropped from the channel.
    Lagged,
    /// Every sender is gone: the replay ended.
    ChannelClosed,
    /// A message was written to the WebSocket (`ok`) or writing it failed.
    Sent { ok: bool },
}

/// What the forwarding loop does next.
#[derive(Debug, Clone, Copy, PartialEq, Eq, Structural)]
pub enum ForwardAction {
    /// Write the JSON of the message to the WebSocket.
    Send,
    /// Wait for the next message on the channel.
    Next,
    /// Stop forwarding and go back to reading the client's frames.
    Stop,
}

/// Decides the forwarding of streamed messages: a message that becomes
/// JSON is sent, one that does not is skipped; a failed write, a lagging
/// receiver or a closed channel ends the forwarding.
pub fn on_forward(event: ForwardEvent) -> (r: ForwardAction)
    ensures
        r == match event {
            ForwardEvent::Update { serialized } => if serialized {
                ForwardAction::Send
            } else {
                ForwardAction::Next
            },
            ForwardEvent::Sent { ok } => if ok {
                ForwardAction::Next
            } else {
                ForwardAction::Stop
            },
            ForwardEvent::Lagged | ForwardEvent::ChannelClosed => ForwardAction::Stop,
        },
{
    match event {
        ForwardEvent::Update { serialized } => if serialized {
            ForwardAction::Send
        } else {
            ForwardAction::Next
        },
        ForwardEvent::Sent { ok } => if ok {
            ForwardAction::Next
        } else {
            ForwardAction::Stop
        },
        ForwardEvent::Lagged | ForwardEvent::ChannelClosed => ForwardAction::Stop,
    }
}

/// Milliseconds to pause after streaming each trace node, so as not to
/// overwhelm the client.
pub const NODE_THROTTLE_MS: u64 = 5;

/// Where a trace replay session stands.
#[derive(Debug, Clone, Copy, PartialEq, Eq, Structural)]
pub enum ReplayPhase {
    /// Nothing sent yet.
    Starting,
    /// Waiting for the ledger state to be reconstructed.
    Reconstructing,
    /// Waiting for the transaction to be executed with tracing.
    Executing,
    /// Streaming trace nodes; the next one has this index.
    Streaming { next_index: usize },
    /// Streaming the state diff, after this many nodes.
    Diffing { nodes: usize },
    /// The trace completed.
    Done,
    /// A stage failed; the session is over.
    Failed,
}

/// What happened in the outside work of a replay.
#[derive(Debug)]
pub enum ReplayEvent {
    /// The session begins.
    Begin,
    /// The ledger state was reconstructed.
    StateReconstructed,
    /// Reconstructing the ledger state failed.
    StateFailed { error: String },
    /// The transaction was executed, with these totals.
    Executed { total_cpu: u64, total_memory: u64 },
    /// Executing the transaction failed.
    ExecutionFailed { error: String },
    /// The next trace node, as JSON.
    NodeResolved { node: Value },
    /// Turning the next trace event into JSON failed.
    NodeFailed { error: String },
    /// All trace nodes were handed over.
    NodesDone,
    /// The next entry of the state diff.
    DiffEntry { key: String, before: Option<String>, after: Option<String>, change_type: String },
    /// Computing the state diff failed.
    DiffFailed { error: String },
    /// All diff entries were handed over; the replay took this long.
    DiffDone { duration_ms: u64 },
    /// A streamed message was handed to the channel (`ok`) or could not be
    /// (no receiver is listening).
    Delivered { ok: bool },
}

/// A replay event as mathematical values.
#[verifier::ext_equal]
pub enum ReplayEventView {
    Begin,
    StateReconstructed,
    StateFailed { error: Seq<char> },
    Executed { total_cpu: u64, total_memory: u64 },
    ExecutionFailed { error: Seq<char> },
    NodeResolved { node: Value },
    NodeFailed { error: Seq<char> },
    NodesDone,
    DiffEntry { key: Seq<char>, before: Option<Seq<char>>, after: Option<Seq<char>>, change_type: Seq<char> },
    DiffFailed { error: Seq<char> },
    DiffDone { duration_ms: u64 },
    Delivered { ok: bool },
}

impl View for ReplayEvent {
    type V = ReplayEventView;

    open spec fn view(&self) -> ReplayEventView {
        match self {
            ReplayEvent::Begin => ReplayEventView::Begin,
            ReplayEvent::StateReconstructed => ReplayEventView::StateReconstructed,
            ReplayEvent::StateFailed { error } => ReplayEventView::StateFailed { error: error@ },
            ReplayEvent::Executed { total_cpu, total_memory } => ReplayEventView::Executed {
                total_cpu: *total_cpu,
                total_memory: *total_memory,
            },
            ReplayEvent::ExecutionFailed { error } => ReplayEventView::ExecutionFailed { error: error@ },
            ReplayEvent::NodeResolved { node } => ReplayEventView::NodeResolved { node: *node },
            ReplayEvent::NodeFailed { error } => ReplayEventView::NodeFailed { error: error@ },
            ReplayEvent::NodesDone => ReplayEventView::NodesDone,
            ReplayEvent::DiffEntry { key, before, after, change_type } => ReplayEventView::DiffEntry {
                key: key@,
                before: opt_string(*before),
                after: opt_string(*after),
                change_type: change_type@,
            },
            ReplayEvent::DiffFailed { error } => ReplayEventView::DiffFailed { error: error@ },
            ReplayEvent::DiffDone { duration_ms } => ReplayEventView::DiffDone {
                duration_ms: *duration_ms,
            },
            ReplayEvent::Delivered { ok } => ReplayEventView::Delivered { ok: *ok },
        }
    }
}

/// What the outside loop does next.
#[derive(Debug, Clone, Copy, PartialEq, Eq, Structural)]
pub enum ReplayAction {
    /// Reconstruct the ledger state and report it.
    ReconstructState,
    /// Execute the transaction with tracing and report it.
    Execute,
    /// Hand over the next trace node, or report that there are none left.
    NextNode,
    /// Pause `NODE_THROTTLE_MS`, then hand over the next trace node (or
    /// report that there are none left).
    ThrottleThenNextNode,
    /// Compute the state diff and hand over its first entry.
    ComputeDiff,
    /// Hand over the next diff entry, or report the end of the diff.
    NextDiffEntry,
    /// The trace completed: end the session successfully.
    Finish,
    /// A stage failed: end the session with an error.
    Abort,
    /// Whether a message reached the channel changes nothing: carry on with
    /// the action given before.
    Continue,
    /// The event does not belong at this point; nothing changed.
    Ignore,
}

/// A trace replay session: the transaction it traces, where it stands, and
/// the resource totals of the execution.
#[derive(Debug)]
pub struct ReplaySession {
    pub tx_hash: String,
    pub phase: ReplayPhase,
    pub total_cpu: u64,
    pub total_memory: u64,
}

/// A replay session as mathematical values.
#[verifier::ext_equal]
pub struct ReplaySessionView {
    pub tx_hash: Seq<char>,
    pub phase: ReplayPhase,
    pub total_cpu: u64,
    pub total_memory: u64,
}

impl View for ReplaySession {
    type V = ReplaySessionView;

    open spec fn view(&self) -> ReplaySessionView {
        ReplaySessionView {
            tx_hash: self.tx_hash@,
            phase: self.phase,
            total_cpu: self.total_cpu,
            total_memory: self.total_memory,
        }
    }
}

/// The decision of a replay session on an event: its next state, the
/// messages to stream, and what the outside loop does next.
pub open spec fn replay_step(s: ReplaySessionView, e: ReplayEventView) -> (
    ReplaySessionView,
    Seq<TraceStreamMessageView>,
    ReplayAction,
) {
    match (s.phase, e) {
        (ReplayPhase::Starting, ReplayEventView::Begin) => (
            ReplaySessionView { phase: ReplayPhase::Reconstructing, ..s },
            seq![TraceStreamMessageView::TraceStarted { tx_hash: s.tx_hash, ledger_sequence: 0 }],
            ReplayAction::ReconstructState,
        ),
        (ReplayPhase::Reconstructing, ReplayEventView::StateReconstructed) => (
            ReplaySessionView { phase: ReplayPhase::Executing, ..s },
            Seq::empty(),
            ReplayAction::Execute,
        ),
        (ReplayPhase::Reconstructing, ReplayEventView::StateFailed { error }) => (
            ReplaySessionView { phase: ReplayPhase::Failed, ..s },
            seq![TraceStreamMessageView::TraceError { error: failure_text(ReplayStage::ReconstructState, error) }],
            ReplayAction::Abort,
        ),
        (ReplayPhase::Executing, ReplayEventView::Executed { total_cpu, total_memory }) => (
            ReplaySessionView { phase: ReplayPhase::Streaming { next_index: 0 }, total_cpu, total_memory, ..s },
            Seq::empty(),
            ReplayAction::NextNode,
        ),
        (ReplayPhase::Executing, ReplayEventView::ExecutionFailed { error }) => (
            ReplaySessionView { phase: ReplayPhase::Failed, ..s },
            seq![TraceStreamMessageView::TraceError { error: failure_text(ReplayStage::Execute, error) }],
            ReplayAction::Abort,
        ),
        (ReplayPhase::Streaming { next_index }, ReplayEventView::NodeResolved { node }) => if next_index
            < usize::MAX {
            (
                ReplaySessionView { phase: ReplayPhase::Streaming { next_index: (next_index + 1) as usize }, ..s },
                node_stream(next_index as nat, node, s.total_cpu, s.total_memory),
                ReplayAction::ThrottleThenNextNode,
            )
        } else {
            (s, Seq::empty(), ReplayAction::Ignore)
        },
        (ReplayPhase::Streaming { next_index }, ReplayEventView::NodeFailed { error }) => (
            ReplaySessionView { phase: ReplayPhase::Failed, ..s },
            seq![TraceStreamMessageView::TraceError { error: failure_text(ReplayStage::SerializeNode, error) }],
            ReplayAction::Abort,
        ),
        (ReplayPhase::Streaming { next_index }, ReplayEventView::NodesDone) => (
            ReplaySessionView { phase: ReplayPhase::Diffing { nodes: next_index }, ..s },
            Seq::empty(),
            ReplayAction::ComputeDiff,
        ),
        (ReplayPhase::Diffing { nodes }, ReplayEventView::DiffEntry { key, before, after, change_type }) => (
            s,
            seq![TraceStreamMessageView::StateDiffEntry { key, before, after, change_type }],
            ReplayAction::NextDiffEntry,
        ),
        (ReplayPhase::Diffing { nodes }, ReplayEventView::DiffFailed { error }) => (
            ReplaySessionView { phase: ReplayPhase::Failed, ..s },
            seq![TraceStreamMessageView::TraceError { error: failure_text(ReplayStage::ComputeDiff, error) }],
            ReplayAction::Abort,
        ),
        (ReplayPhase::Diffing { nodes }, ReplayEventView::DiffDone { duration_ms }) => (
            ReplaySessionView { phase: ReplayPhase::Done, ..s },
            seq![TraceStreamMessageView::TraceCompleted { total_nodes: nodes, duration_ms }],
            ReplayAction::Finish,
        ),
        (_, ReplayEventView::Delivered { ok }) => (s, Seq::empty(), ReplayAction::Continue),
        _ => (s, Seq::empty(), ReplayAction::Ignore),
    }
}

fn one_message(m: TraceStreamMessage) -> (r: Vec<TraceStreamMessage>)
    ensures
        messages_view(r@) == seq![m@],
{
    let mut r: Vec<TraceStreamMessage> = Vec::new();
    r.push(m);
    assert(messages_view(r@) =~= seq![m@]);
    r
}

impl ReplaySession {
    /// A session about to trace `tx_hash`.
    pub fn new(tx_hash: &str) -> (r: ReplaySession)
        ensures
            r@ == (ReplaySessionView {
                tx_hash: tx_hash@,
                phase: ReplayPhase::Starting,
                total_cpu: 0,
                total_memory: 0,
            }),
    {
        ReplaySession { tx_hash: tx_hash.to_owned(), phase: ReplayPhase::Starting, total_cpu: 0, total_memory: 0 }
    }

    /// Takes the decision on one event: moves the session on and returns the
    /// messages to stream and what to do next.
    pub fn advance(&mut self, event: ReplayEvent) -> (r: (Vec<TraceStreamMessage>, ReplayAction))
        ensures
            replay_step(old(self)@, event@) == (final(self)@, messages_view(r.0@), r.1),
    {
        let ghost s0 = self@;
        let ghost e = event@;
        match (self.phase, event) {
            (ReplayPhase::Starting, ReplayEvent::Begin) => {
                self.phase = ReplayPhase::Reconstructing;
                let m = started_message(self.tx_hash.as_str(), 0);
                (one_message(m), ReplayAction::ReconstructState)
            },
            (ReplayPhase::Reconstructing, ReplayEvent::StateReconstructed) => {
                self.phase = ReplayPhase::Executing;
                let r: Vec<TraceStreamMessage> = Vec::new();
                assert(messages_view(r@) =~= Seq::<TraceStreamMessageView>::empty());
                (r, ReplayAction::Execute)
            },
            (ReplayPhase::Reconstructing, ReplayEvent::StateFailed { error }) => {
                self.phase = ReplayPhase::Failed;
                let m = failure_message(ReplayStage::ReconstructState, error.as_str());
                (one_message(m), ReplayAction::Abort)
            },
            (ReplayPhase::Executing, ReplayEvent::Executed { total_cpu, total_memory }) => {
                self.phase = ReplayPhase::Streaming { next_index: 0 };
                self.total_cpu = total_cpu;
                self.total_memory = total_memory;
                let r: Vec<TraceStreamMessage> = Vec::new();
                assert(messages_view(r@) =~= Seq::<TraceStreamMessageView>::empty());
                (r, ReplayAction::NextNode)
            },
            (ReplayPhase::Executing, ReplayEvent::ExecutionFailed { error }) => {
                self.phase = ReplayPhase::Failed;
                let m = failure_message(ReplayStage::Execute, error.as_str());
                (one_message(m), ReplayAction::Abort)
            },
            (ReplayPhase::Streaming { next_index }, ReplayEvent::NodeResolved { node }) => {
                if next_index < usize::MAX {
                    self.phase = ReplayPhase::Streaming { next_index: next_index + 1 };
                    let r = node_messages(next_index, node, self.total_cpu, self.total_memory);
                    (r, ReplayAction::ThrottleThenNextNode)
                } else {
                    let r: Vec<TraceStreamMessage> = Vec::new();
                    assert(messages_view(r@) =~= Seq::<TraceStreamMessageView>::empty());
                    (r, ReplayAction::Ignore)
                }
            },
            (ReplayPhase::Streaming { next_index }, ReplayEvent::NodeFailed { error }) => {
                self.phase = ReplayPhase::Failed;
                let m = failure_message(ReplayStage::SerializeNode, error.as_str());
                (one_message(m), ReplayAction::Abort)
            },
            (ReplayPhase::Streaming { next_index }, ReplayEvent::NodesDone) => {
                self.phase = ReplayPhase::Diffing { nodes: next_index };
                let r: Vec<TraceStreamMessage> = Vec::new();
                assert(messages_view(r@) =~= Seq::<TraceStreamMessageView>::empty());
                (r, ReplayAction::ComputeDiff)
            },
            (ReplayPhase::Diffing { nodes }, ReplayEvent::DiffEntry { key, before, after, change_type }) => {
                let m = diff_entry_message(key, before, after, change_type);
                (one_message(m), ReplayAction::NextDiffEntry)
            },
            (ReplayPhase::Diffing { nodes }, ReplayEvent::DiffFailed { error }) => {
                self.phase = ReplayPhase::Failed;
                let m = failure_message(ReplayStage::ComputeDiff, error.as_str());
                (one_message(m), ReplayAction::Abort)
            },
            (ReplayPhase::Diffing { nodes }, ReplayEvent::DiffDone { duration_ms }) => {
                self.phase = ReplayPhase::Done;
                let m = completed_message(nodes, duration_ms);
                (one_message(m), ReplayAction::Finish)
            },
            (_, ReplayEvent::Delivered { ok }) => {
                let r: Vec<TraceStreamMessage> = Vec::new();
                assert(messages_view(r@) =~= Seq::<TraceStreamMessageView>::empty());
                (r, ReplayAction::Continue)
            },
            _ => {
                let r: Vec<TraceStreamMessage> = Vec::new();
                assert(messages_view(r@) =~= Seq::<TraceStreamMessageView>::empty());
                (r, ReplayAction::Ignore)
            },
        }
    }
}


/// Feeding a session a sequence of events: its final state and all the
/// messages it streamed, in order.
pub open spec fn run_session(s: ReplaySessionView, es: Seq<ReplayEventView>) -> (
    ReplaySessionView,
    Seq<TraceStreamMessageView>,
)
    decreases es.len(),
{
    if es.len() == 0 {
        (s, Seq::empty())
    } else {
        let (s1, m1, _a) = replay_step(s, es[0]);
        let (s2, m2) = run_session(s1, es.drop_first());
        (s2, m1 + m2)
    }
}

proof fn lemma_run_session_concat(s: ReplaySessionView, a: Seq<ReplayEventView>, b: Seq<ReplayEventView>)
    ensures
        run_session(s, a + b) == ({
            let (s1, m1) = run_session(s, a);
            let (s2, m2) = run_session(s1, b);
            (s2, m1 + m2)
        }),
    decreases a.len(),
{
    if a.len() == 0 {
        assert(a + b =~= b);
        assert(Seq::<TraceStreamMessageView>::empty() + run_session(s, b).1 =~= run_session(s, b).1);
    } else {
        let (s1, m1, _x) = replay_step(s, a[0]);
        assert((a + b).drop_first() =~= a.drop_first() + b);
        lemma_run_session_concat(s1, a.drop_first(), b);
        let (t1, n1) = run_session(s1, a.drop_first());
        let (t2, n2) = run_session(t1, b);
        assert(m1 + (n1 + n2) =~= (m1 + n1) + n2);
    }
}

/// The events that hand over trace nodes.
pub open spec fn node_events(nodes: Seq<Value>) -> Seq<ReplayEventView> {
    nodes.map_values(|n: Value| ReplayEventView::NodeResolved { node: n })
}

/// The message streamed for a diff entry event.
pub open spec fn diff_message(e: ReplayEventView) -> TraceStreamMessageView {
    match e {
        ReplayEventView::DiffEntry { key, before, after, change_type } => {
            TraceStreamMessageView::StateDiffEntry { key, before, after, change_type }
        },
        _ => TraceStreamMessageView::TraceCompleted { total_nodes: 0, duration_ms: 0 },
    }
}

proof fn lemma_stream_nodes(s: ReplaySessionView, nodes: Seq<Value>)
    requires
        s.phase == (ReplayPhase::Streaming { next_index: 0 }),
        nodes.len() < usize::MAX,
    ensures
        run_session(s, node_events(nodes)) == (
            ReplaySessionView { phase: ReplayPhase::Streaming { next_index: nodes.len() as usize }, ..s },
            nodes_stream(nodes, s.total_cpu, s.total_memory),
        ),
    decreases nodes.len(),
{
    if nodes.len() == 0 {
        assert(node_events(nodes) =~= Seq::<ReplayEventView>::empty());
    } else {
        let init = nodes.drop_last();
        lemma_stream_nodes(s, init);
        assert(node_events(nodes) =~= node_events(init) + seq![
            ReplayEventView::NodeResolved { node: nodes.last() },
        ]);
        lemma_run_session_concat(
            s,
            node_events(init),
            seq![ReplayEventView::NodeResolved { node: nodes.last() }],
        );
        let mid = ReplaySessionView { phase: ReplayPhase::Streaming { next_index: init.len() as usize }, ..s };
        let last = node_stream(init.len() as nat, nodes.last(), s.total_cpu, s.total_memory);
        let one = seq![ReplayEventView::NodeResolved { node: nodes.last() }];
        reveal_with_fuel(run_session, 2);
        assert(one.drop_first() =~= Seq::<ReplayEventView>::empty());
        assert(run_session(mid, one).1 =~= last + Seq::<TraceStreamMessageView>::empty());
    }
}

proof fn lemma_stream_diffs(s: ReplaySessionView, diffs: Seq<ReplayEventView>)
    requires
        s.phase is Diffing,
        forall|i: int| 0 <= i < diffs.len() ==> #[trigger] diffs[i] is DiffEntry,
    ensures
        run_session(s, diffs) == (s, diffs.map_values(|e: ReplayEventView| diff_message(e))),
    decreases diffs.len(),
{
    if diffs.len() == 0 {
        assert(diffs.map_values(|e: ReplayEventView| diff_message(e)) =~= Seq::<TraceStreamMessageView>::empty());
    } else {
        assert(diffs[0] is DiffEntry);
        lemma_stream_diffs(s, diffs.drop_first());
        assert(diffs.map_values(|e: ReplayEventView| diff_message(e)) =~= seq![diff_message(diffs[0])]
            + diffs.drop_first().map_values(|e: ReplayEventView| diff_message(e)));
    }
}

/// A replay that succeeds streams, in order: one `trace_started`, each trace
/// node (a resource update with every tenth, from the first), each state
/// diff entry, and `trace_completed` with the number of nodes streamed.
pub proof fn law_successful_replay_stream(
    tx_hash: Seq<char>,
    total_cpu: u64,
    total_memory: u64,
    nodes: Seq<Value>,
    diffs: Seq<ReplayEventView>,
    duration_ms: u64,
)
    requires
        nodes.len() < usize::MAX,
        forall|i: int| 0 <= i < diffs.len() ==> #[trigger] diffs[i] is DiffEntry,
    ensures
        ({
            let start = ReplaySessionView {
                tx_hash,
                phase: ReplayPhase::Starting,
                total_cpu: 0,
                total_memory: 0,
            };
            let events = seq![
                ReplayEventView::Begin,
                ReplayEventView::StateReconstructed,
                ReplayEventView::Executed { total_cpu, total_memory },
            ] + node_events(nodes) + seq![ReplayEventView::NodesDone] + diffs + seq![
                ReplayEventView::DiffDone { duration_ms },
            ];
            run_session(start, events) == (
                ReplaySessionView { tx_hash, phase: ReplayPhase::Done, total_cpu, total_memory },
                seq![TraceStreamMessageView::TraceStarted { tx_hash, ledger_sequence: 0 }]
                    + nodes_stream(nodes, total_cpu, total_memory) + diffs.map_values(
                    |e: ReplayEventView| diff_message(e),
                ) + seq![
                    TraceStreamMessageView::TraceCompleted { total_nodes: nodes.len() as usize, duration_ms },
                ],
            )
        }),
{
    let start = ReplaySessionView { tx_hash, phase: ReplayPhase::Starting, total_cpu: 0, total_memory: 0 };
    let head = seq![
        ReplayEventView::Begin,
        ReplayEventView::StateReconstructed,
        ReplayEventView::Executed { total_cpu, total_memory },
    ];
    let ne = node_events(nodes);
    let done = seq![ReplayEventView::NodesDone];
    let tail = seq![ReplayEventView::DiffDone { duration_ms }];
    let streaming = ReplaySessionView {
        tx_hash,
        phase: ReplayPhase::Streaming { next_index: 0 },
        total_cpu,
        total_memory,
    };
    let m_head = seq![TraceStreamMessageView::TraceStarted { tx_hash, ledger_sequence: 0 }];
    reveal_with_fuel(run_session, 4);
    assert(head.drop_first().drop_first().drop_first() =~= Seq::<ReplayEventView>::empty());
    assert(head.drop_first() =~= seq![
        ReplayEventView::StateReconstructed,
        ReplayEventView::Executed { total_cpu, total_memory },
    ]);
    assert(head.drop_first().drop_first() =~= seq![ReplayEventView::Executed { total_cpu, total_memory }]);
    assert(run_session(start, head).0 == streaming);
    assert(run_session(start, head).1 =~= m_head);
    lemma_stream_nodes(streaming, nodes);
    let n = nodes.len() as usize;
    let after_nodes = ReplaySessionView { phase: ReplayPhase::Streaming { next_index: n }, ..streaming };
    let diffing = ReplaySessionView { phase: ReplayPhase::Diffing { nodes: n }, ..streaming };
    assert(done.drop_first() =~= Seq::<ReplayEventView>::empty());
    assert(run_session(after_nodes, done).0 == diffing);
    assert(run_session(after_nodes, done).1 =~= Seq::<TraceStreamMessageView>::empty());
    lemma_stream_diffs(diffing, diffs);
    assert(tail.drop_first() =~= Seq::<ReplayEventView>::empty());
    let m_tail = seq![TraceStreamMessageView::TraceCompleted { total_nodes: n, duration_ms }];
    assert(run_session(diffing, tail).1 =~= m_tail);
    lemma_run_session_concat(start, head, ne);
    lemma_run_session_concat(start, head + ne, done);
    lemma_run_session_concat(start, head + ne + done, diffs);
    lemma_run_session_concat(start, head + ne + done + diffs, tail);
    let md = diffs.map_values(|e: ReplayEventView| diff_message(e));
    let ns = nodes_stream(nodes, total_cpu, total_memory);
    assert(m_head + ns + Seq::<TraceStreamMessageView>::empty() =~= m_head + ns);
}


/// Every decision to abort a session streams, as its last message, a
/// `trace_error` describing the failure, and never a `trace_completed`; an
/// aborted session is over.
pub proof fn law_abort_reports_error(s: ReplaySessionView, e: ReplayEventView)
    ensures
        ({
            let (s2, ms, a) = replay_step(s, e);
            a == ReplayAction::Abort ==> {
                &&& ms.len() == 1
                &&& ms.last() is TraceError
                &&& s2.phase == ReplayPhase::Failed
            }
        }),
{
}

/// A session that has finished or failed takes no further decision: every
/// event leaves it as it is, streams nothing and asks for no further work.
pub proof fn law_ended_session_is_inert(s: ReplaySessionView, e: ReplayEventView)
    requires
        s.phase == ReplayPhase::Done || s.phase == ReplayPhase::Failed,
    ensures
        ({
            let (s2, ms, a) = replay_step(s, e);
            &&& s2 == s
            &&& ms.len() == 0
            &&& (a == ReplayAction::Ignore || a == ReplayAction::Continue)
        }),
{
}

/// Whether a streamed message reached the channel is no decision of the
/// session: a failed send, like a successful one, leaves the session as it
/// is, streams nothing, neither aborts nor finishes the replay, and is
/// reported back to no one.
pub proof fn law_failed_send_is_ignored(s: ReplaySessionView, ok: bool)
    ensures
        replay_step(s, ReplayEventView::Delivered { ok }) == (
            s,
            Seq::<TraceStreamMessageView>::empty(),
            ReplayAction::Continue,
        ),
        replay_step(s, ReplayEventView::Delivered { ok: false }) == replay_step(
            s,
            ReplayEventView::Delivered { ok: true },
        ),
{
}

/// The events of a run with the delivery reports left out.
pub open spec fn without_deliveries(es: Seq<ReplayEventView>) -> Seq<ReplayEventView>
    decreases es.len(),
{
    if es.len() == 0 {
        es
    } else if es[0] is Delivered {
        without_deliveries(es.drop_first())
    } else {
        seq![es[0]] + without_deliveries(es.drop_first())
    }
}

/// Failed sends never stop or change a replay: a session fed any events,
/// with delivery reports (failed or not) anywhere among them, ends in the
/// same state and streams the same messages as one fed the same events
/// without them.
pub proof fn law_failed_sends_never_stop_replay(s: ReplaySessionView, es: Seq<ReplayEventView>)
    ensures
        run_session(s, es) == run_session(s, without_deliveries(es)),
    decreases es.len(),
{
    if es.len() > 0 {
        let (s1, m1, _a) = replay_step(s, es[0]);
        let rest = es.drop_first();
        law_failed_sends_never_stop_replay(s1, rest);
        if es[0] is Delivered {
            law_failed_sends_never_stop_replay(s, rest);
            assert(m1 + run_session(s1, rest).1 =~= run_session(s1, rest).1);
        } else {
            let w = seq![es[0]] + without_deliveries(rest);
            assert(w[0] == es[0]);
            assert(w.drop_first() =~= without_deliveries(rest));
        }
    }
}

/// Every stage that fails aborts the session: it moves to `Failed`, streams
/// exactly one `trace_error` naming the stage and carrying the error, and
/// asks to abort. A failure event belongs to the stage under way: state
/// reconstruction, execution, turning a trace node into JSON (while nodes
/// stream) or computing the state diff (while diff entries stream).
pub proof fn law_every_stage_failure_aborts(s: ReplaySessionView, error: Seq<char>)
    ensures
        s.phase == ReplayPhase::Reconstructing ==> replay_step(
            s,
            ReplayEventView::StateFailed { error },
        ) == (
            ReplaySessionView { phase: ReplayPhase::Failed, ..s },
            seq![TraceStreamMessageView::TraceError { error: "Failed to reconstruct state: "@ + error }],
            ReplayAction::Abort,
        ),
        s.phase == ReplayPhase::Executing ==> replay_step(
            s,
            ReplayEventView::ExecutionFailed { error },
        ) == (
            ReplaySessionView { phase: ReplayPhase::Failed, ..s },
            seq![TraceStreamMessageView::TraceError { error: "Sandbox execution failed: "@ + error }],
            ReplayAction::Abort,
        ),
        s.phase is Streaming ==> replay_step(s, ReplayEventView::NodeFailed { error }) == (
            ReplaySessionView { phase: ReplayPhase::Failed, ..s },
            seq![TraceStreamMessageView::TraceError { error: "Failed to serialize trace node: "@ + error }],
            ReplayAction::Abort,
        ),
        s.phase is Diffing ==> replay_step(s, ReplayEventView::DiffFailed { error }) == (
            ReplaySessionView { phase: ReplayPhase::Failed, ..s },
            seq![TraceStreamMessageView::TraceError { error: "Failed to compute state diff: "@ + error }],
            ReplayAction::Abort,
        ),
{
}

} // verus!
