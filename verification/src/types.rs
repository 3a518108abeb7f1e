//! Values exchanged between clients, the coordinator and the write-ahead log.
//!
//! Identifiers of clients and of operations are 128-bit integers. Every type
//! that owns text has a mathematical counterpart, reached with `deep_view`,
//! in which strings are sequences of code points and vectors are sequences.

use vstd::prelude::*;

verus! {

/// Version number written into every new write-ahead-log entry.
pub const CURRENT_WAL_VERSION: u8 = 2;

/// One atomic change to a document; positions and lengths count code points.
#[derive(Debug, PartialEq, Eq)]
pub enum OpKind {
    Insert { pos: usize, text: String },
    Delete { pos: usize, len: usize },
}

/// The mathematical counterpart of [`OpKind`].
pub enum Op {
    Insert { pos: usize, text: Seq<char> },
    Delete { pos: usize, len: usize },
}

impl DeepView for OpKind {
    type V = Op;

    open spec fn deep_view(&self) -> Op {
        match *self {
            OpKind::Insert { pos, text } => Op::Insert { pos, text: text@ },
            OpKind::Delete { pos, len } => Op::Delete { pos, len },
        }
    }
}

impl Clone for OpKind {
    fn clone(&self) -> (res: Self)
        ensures
            res == *self,
    {
        match self {
            OpKind::Insert { pos, text } => OpKind::Insert { pos: *pos, text: text.clone() },
            OpKind::Delete { pos, len } => OpKind::Delete { pos: *pos, len: *len },
        }
    }
}

/// Copies a list of operations.
pub fn clone_ops(ops: &Vec<OpKind>) -> (res: Vec<OpKind>)
    ensures
        res@ == ops@,
        res.deep_view() == ops.deep_view(),
{
    let res = ops.clone();
    res
}

/// Direction in which a selection was extended.
#[derive(Debug, Clone, Copy, PartialEq, Eq)]
pub enum SelectionDirection {
    Forward,
    Backward,
}

/// A caret or selection inside a document.
#[derive(Debug, Clone, Copy, PartialEq, Eq)]
pub struct CursorState {
    pub position: usize,
    pub anchor: Option<usize>,
    pub selection_direction: Option<SelectionDirection>,
}

impl DeepView for CursorState {
    type V = CursorState;

    open spec fn deep_view(&self) -> CursorState {
        *self
    }
}

/// A half-open range of code points.
#[derive(Debug, Clone, Copy, PartialEq, Eq)]
pub struct TextRange {
    pub start: usize,
    pub end: usize,
}

impl DeepView for TextRange {
    type V = TextRange;

    open spec fn deep_view(&self) -> TextRange {
        *self
    }
}

/// A batch of operations submitted by one client against a base revision.
#[derive(Debug, PartialEq, Eq)]
pub struct Edit {
    pub base_rev: u64,
    pub ops: Vec<OpKind>,
    pub client_id: Option<u128>,
    pub op_id: Option<u128>,
    pub cursor_before: Option<CursorState>,
    pub cursor_after: Option<CursorState>,
    pub ts: Option<u64>,
}

/// The mathematical counterpart of [`Edit`].
pub struct EditView {
    pub base_rev: u64,
    pub ops: Seq<Op>,
    pub client_id: Option<u128>,
    pub op_id: Option<u128>,
    pub cursor_before: Option<CursorState>,
    pub cursor_after: Option<CursorState>,
    pub ts: Option<u64>,
}

impl DeepView for Edit {
    type V = EditView;

    open spec fn deep_view(&self) -> EditView {
        EditView {
            base_rev: self.base_rev,
            ops: self.ops.deep_view(),
            client_id: self.client_id,
            op_id: self.op_id,
            cursor_before: self.cursor_before,
            cursor_after: self.cursor_after,
            ts: self.ts,
        }
    }
}

impl Clone for Edit {
    fn clone(&self) -> (res: Self)
        ensures
            res.deep_view() == self.deep_view(),
    {
        let ops = clone_ops(&self.ops);
        Edit {
            base_rev: self.base_rev,
            ops,
            client_id: self.client_id,
            op_id: self.op_id,
            cursor_before: self.cursor_before,
            cursor_after: self.cursor_after,
            ts: self.ts,
        }
    }
}

/// Copies an optional string.
pub fn clone_opt_string(text: &Option<String>) -> (res: Option<String>)
    ensures
        res == *text,
{
    match text {
        Some(t) => Some(t.clone()),
        None => None,
    }
}

/// Reply to a request for the current state of a document.
#[derive(Debug, PartialEq, Eq)]
pub struct SnapshotResp {
    pub slug: String,
    pub rev: u64,
    pub content: String,
}

/// The mathematical counterpart of [`SnapshotResp`].
pub struct SnapshotRespView {
    pub slug: Seq<char>,
    pub rev: u64,
    pub content: Seq<char>,
}

impl DeepView for SnapshotResp {
    type V = SnapshotRespView;

    open spec fn deep_view(&self) -> SnapshotRespView {
        SnapshotRespView { slug: self.slug@, rev: self.rev, content: self.content@ }
    }
}

/// The composition state of an input method, as presence remembers it.
#[derive(Debug, PartialEq, Eq)]
pub struct ImeSnapshot {
    pub phase: String,
    pub range: Option<TextRange>,
    pub text: Option<String>,
}

/// The mathematical counterpart of [`ImeSnapshot`].
pub struct ImeSnapshotView {
    pub phase: Seq<char>,
    pub range: Option<TextRange>,
    pub text: Option<Seq<char>>,
}

impl DeepView for ImeSnapshot {
    type V = ImeSnapshotView;

    open spec fn deep_view(&self) -> ImeSnapshotView {
        ImeSnapshotView {
            phase: self.phase@,
            range: self.range,
            text: self.text.deep_view(),
        }
    }
}

impl Clone for ImeSnapshot {
    fn clone(&self) -> (res: Self)
        ensures
            res == *self,
    {
        ImeSnapshot {
            phase: self.phase.clone(),
            range: self.range,
            text: clone_opt_string(&self.text),
        }
    }
}

/// One step of an input-method composition.
#[derive(Debug, PartialEq, Eq)]
pub enum ImeEvent {
    Start { range: TextRange },
    Update { range: TextRange, text: String },
    Commit { replace_range: TextRange, text: String },
    Cancel { range: TextRange },
}

/// The mathematical counterpart of [`ImeEvent`].
pub enum ImeEventView {
    Start { range: TextRange },
    Update { range: TextRange, text: Seq<char> },
    Commit { replace_range: TextRange, text: Seq<char> },
    Cancel { range: TextRange },
}

impl DeepView for ImeEvent {
    type V = ImeEventView;

    open spec fn deep_view(&self) -> ImeEventView {
        match *self {
            ImeEvent::Start { range } => ImeEventView::Start { range },
            ImeEvent::Update { range, text } => ImeEventView::Update { range, text: text@ },
            ImeEvent::Commit { replace_range, text } => ImeEventView::Commit {
                replace_range,
                text: text@,
            },
            ImeEvent::Cancel { range } => ImeEventView::Cancel { range },
        }
    }
}

impl Clone for ImeEvent {
    fn clone(&self) -> (res: Self)
        ensures
            res == *self,
    {
        match self {
            ImeEvent::Start { range } => ImeEvent::Start { range: *range },
            ImeEvent::Update { range, text } => ImeEvent::Update {
                range: *range,
                text: text.clone(),
            },
            ImeEvent::Commit { replace_range, text } => ImeEvent::Commit {
                replace_range: *replace_range,
                text: text.clone(),
            },
            ImeEvent::Cancel { range } => ImeEvent::Cancel { range: *range },
        }
    }
}

/// What the write-ahead log records.
#[derive(Debug, PartialEq, Eq)]
pub enum DocEvent {
    Edit { edit: Edit },
    Cursor { client_id: u128, op_id: Option<u128>, cursor: CursorState },
    Ime { client_id: u128, op_id: Option<u128>, ime: ImeEvent },
}

/// The mathematical counterpart of [`DocEvent`].
pub enum DocEventView {
    Edit { edit: EditView },
    Cursor { client_id: u128, op_id: Option<u128>, cursor: CursorState },
    Ime { client_id: u128, op_id: Option<u128>, ime: ImeEventView },
}

impl DeepView for DocEvent {
    type V = DocEventView;

    open spec fn deep_view(&self) -> DocEventView {
        match *self {
            DocEvent::Edit { edit } => DocEventView::Edit { edit: edit.deep_view() },
            DocEvent::Cursor { client_id, op_id, cursor } => DocEventView::Cursor {
                client_id,
                op_id,
                cursor,
            },
            DocEvent::Ime { client_id, op_id, ime } => DocEventView::Ime {
                client_id,
                op_id,
                ime: ime.deep_view(),
            },
        }
    }
}

/// One line of the write-ahead log in its current format.
#[derive(Debug, PartialEq, Eq)]
pub struct WalEntryV2 {
    pub version: u8,
    pub ts: u64,
    pub event: DocEvent,
}

/// The mathematical counterpart of [`WalEntryV2`].
pub struct WalEntryView {
    pub version: u8,
    pub ts: u64,
    pub event: DocEventView,
}

impl DeepView for WalEntryV2 {
    type V = WalEntryView;

    open spec fn deep_view(&self) -> WalEntryView {
        WalEntryView { version: self.version, ts: self.ts, event: self.event.deep_view() }
    }
}

/// One line of the write-ahead log as replay meets it: the current format,
/// or the older one, which is a bare edit.
#[derive(Debug, PartialEq, Eq)]
pub enum WalLine {
    V2(WalEntryV2),
    V1(Edit),
}

/// The mathematical counterpart of [`WalLine`].
pub enum WalLineView {
    V2(WalEntryView),
    V1(EditView),
}

impl DeepView for WalLine {
    type V = WalLineView;

    open spec fn deep_view(&self) -> WalLineView {
        match *self {
            WalLine::V2(entry) => WalLineView::V2(entry.deep_view()),
            WalLine::V1(edit) => WalLineView::V1(edit.deep_view()),
        }
    }
}

/// What the server knows of one connected client.
#[derive(Debug, PartialEq, Eq)]
pub struct PresenceState {
    pub client_id: u128,
    pub label: Option<String>,
    pub color: Option<String>,
    pub cursor: Option<CursorState>,
    pub ime: Option<ImeSnapshot>,
    pub last_seen: u64,
}

/// The mathematical counterpart of [`PresenceState`].
pub struct PresenceView {
    pub client_id: u128,
    pub label: Option<Seq<char>>,
    pub color: Option<Seq<char>>,
    pub cursor: Option<CursorState>,
    pub ime: Option<ImeSnapshotView>,
    pub last_seen: u64,
}

impl DeepView for PresenceState {
    type V = PresenceView;

    open spec fn deep_view(&self) -> PresenceView {
        PresenceView {
            client_id: self.client_id,
            label: self.label.deep_view(),
            color: self.color.deep_view(),
            cursor: self.cursor,
            ime: self.ime.deep_view(),
            last_seen: self.last_seen,
        }
    }
}

impl Clone for PresenceState {
    fn clone(&self) -> (res: Self)
        ensures
            res == *self,
    {
        PresenceState {
            client_id: self.client_id,
            label: clone_opt_string(&self.label),
            color: clone_opt_string(&self.color),
            cursor: self.cursor,
            ime: match &self.ime {
                Some(snapshot) => Some(snapshot.clone()),
                None => None,
            },
            last_seen: self.last_seen,
        }
    }
}

/// A selection as the older client protocol writes it.
#[derive(Debug, Clone, Copy, PartialEq, Eq)]
pub struct CompatSelection {
    pub position: usize,
    pub anchor: Option<usize>,
    pub selection_direction: Option<SelectionDirection>,
}

impl From<CompatSelection> for CursorState {
    fn from(value: CompatSelection) -> (res: CursorState) {
        CursorState {
            position: value.position,
            anchor: value.anchor,
            selection_direction: value.selection_direction,
        }
    }
}

impl vstd::std_specs::convert::FromSpecImpl<CompatSelection> for CursorState {
    open spec fn obeys_from_spec() -> bool {
        true
    }

    open spec fn from_spec(value: CompatSelection) -> CursorState {
        CursorState {
            position: value.position,
            anchor: value.anchor,
            selection_direction: value.selection_direction,
        }
    }
}

impl From<CursorState> for CompatSelection {
    fn from(value: CursorState) -> (res: CompatSelection) {
        CompatSelection {
            position: value.position,
            anchor: value.anchor,
            selection_direction: value.selection_direction,
        }
    }
}

impl vstd::std_specs::convert::FromSpecImpl<CursorState> for CompatSelection {
    open spec fn obeys_from_spec() -> bool {
        true
    }

    open spec fn from_spec(value: CursorState) -> CompatSelection {
        CompatSelection {
            position: value.position,
            anchor: value.anchor,
            selection_direction: value.selection_direction,
        }
    }
}

/// What accompanies an operation of the older client protocol.
#[derive(Debug, Clone, Copy, PartialEq, Eq)]
pub struct CompatOpContext {
    pub base_version: u64,
    pub client_id: Option<u128>,
    pub selection: Option<CompatSelection>,
    pub op_id: Option<u128>,
    pub ts: Option<u64>,
}

/// What accompanies an operation that the server relays in the older
/// protocol.
#[derive(Debug, Clone, Copy, PartialEq, Eq)]
pub struct CompatOpBroadcastContext {
    pub server_seq: u64,
    pub client_id: Option<u128>,
    pub selection: Option<CompatSelection>,
    pub op_id: Option<u128>,
    pub ts: Option<u64>,
}

/// A message from a client.
#[derive(Debug, PartialEq, Eq)]
pub enum ClientMsg {
    Hello { slug: String, client_id: u128, label: Option<String>, color: Option<String> },
    Edit { slug: String, edit: Edit },
    Cursor { slug: String, cursor: CursorState, op_id: Option<u128>, ts: Option<u64> },
    Ime { slug: String, ime: ImeEvent, op_id: Option<u128>, ts: Option<u64> },
    Profile { slug: String, label: Option<String>, color: Option<String> },
    Join {
        session_id: String,
        client_id: u128,
        label: Option<String>,
        color: Option<String>,
        password: Option<String>,
        token: Option<String>,
    },
    CompatOp { session_id: String, operation: OpKind, context: CompatOpContext },
    Ping { ts: Option<u64> },
    Pong,
}

/// A message from the server.
#[derive(Debug, PartialEq, Eq)]
#[allow(inconsistent_fields)]
pub enum ServerMsg {
    Applied {
        slug: String,
        rev: u64,
        ops: Vec<OpKind>,
        client_id: Option<u128>,
        op_id: Option<u128>,
        ts: u64,
    },
    Cursor { slug: String, client_id: u128, cursor: CursorState, op_id: Option<u128>, ts: u64 },
    Ime { slug: String, client_id: u128, ime: ImeEvent, op_id: Option<u128>, ts: u64 },
    PresenceSnapshot { slug: String, clients: Vec<PresenceState> },
    PresenceDiff {
        slug: String,
        added: Vec<PresenceState>,
        updated: Vec<PresenceState>,
        removed: Vec<u128>,
    },
    CompatSnapshot {
        session_id: String,
        rev: u64,
        content: String,
        presence: Option<Vec<PresenceState>>,
    },
    CompatOpBroadcast { session_id: String, operation: OpKind, context: CompatOpBroadcastContext },
    CompatAck { session_id: String, server_seq: u64, op_id: Option<u128> },
    Pong { ts: Option<u64> },
}

/// The mathematical counterpart of [`ServerMsg`].
#[allow(inconsistent_fields)]
pub enum ServerMsgView {
    Applied {
        slug: Seq<char>,
        rev: u64,
        ops: Seq<Op>,
        client_id: Option<u128>,
        op_id: Option<u128>,
        ts: u64,
    },
    Cursor { slug: Seq<char>, client_id: u128, cursor: CursorState, op_id: Option<u128>, ts: u64 },
    Ime { slug: Seq<char>, client_id: u128, ime: ImeEventView, op_id: Option<u128>, ts: u64 },
    PresenceSnapshot { slug: Seq<char>, clients: Seq<PresenceView> },
    PresenceDiff {
        slug: Seq<char>,
        added: Seq<PresenceView>,
        updated: Seq<PresenceView>,
        removed: Seq<u128>,
    },
    CompatSnapshot {
        session_id: Seq<char>,
        rev: u64,
        content: Seq<char>,
        presence: Option<Seq<PresenceView>>,
    },
    CompatOpBroadcast { session_id: Seq<char>, operation: Op, context: CompatOpBroadcastContext },
    CompatAck { session_id: Seq<char>, server_seq: u64, op_id: Option<u128> },
    Pong { ts: Option<u64> },
}

impl DeepView for ServerMsg {
    type V = ServerMsgView;

    open spec fn deep_view(&self) -> ServerMsgView {
        match *self {
            ServerMsg::Applied { slug, rev, ops, client_id, op_id, ts } => ServerMsgView::Applied {
                slug: slug@,
                rev,
                ops: ops.deep_view(),
                client_id,
                op_id,
                ts,
            },
            ServerMsg::Cursor { slug, client_id, cursor, op_id, ts } => ServerMsgView::Cursor {
                slug: slug@,
                client_id,
                cursor,
                op_id,
                ts,
            },
            ServerMsg::Ime { slug, client_id, ime, op_id, ts } => ServerMsgView::Ime {
                slug: slug@,
                client_id,
                ime: ime.deep_view(),
                op_id,
                ts,
            },
            ServerMsg::PresenceSnapshot { slug, clients } => ServerMsgView::PresenceSnapshot {
                slug: slug@,
                clients: clients.deep_view(),
            },
            ServerMsg::PresenceDiff { slug, added, updated, removed } => {
                ServerMsgView::PresenceDiff {
                    slug: slug@,
                    added: added.deep_view(),
                    updated: updated.deep_view(),
                    removed: removed@,
                }
            },
            ServerMsg::CompatSnapshot { session_id, rev, content, presence } => {
                ServerMsgView::CompatSnapshot {
                    session_id: session_id@,
                    rev,
                    content: content@,
                    presence: presence.deep_view(),
                }
            },
            ServerMsg::CompatOpBroadcast { session_id, operation, context } => {
                ServerMsgView::CompatOpBroadcast {
                    session_id: session_id@,
                    operation: operation.deep_view(),
                    context,
                }
            },
            ServerMsg::CompatAck { session_id, server_seq, op_id } => ServerMsgView::CompatAck {
                session_id: session_id@,
                server_seq,
                op_id,
            },
            ServerMsg::Pong { ts } => ServerMsgView::Pong { ts },
        }
    }
}

} // verus!
