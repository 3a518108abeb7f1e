//! One session of a client with a document: whether it may begin, what each
//! of its messages does, and what is left to do when it ends.

use vstd::prelude::*;
use crate::auth::{
    authorized_spec, extract_password_from_headers, extract_password_from_token,
    header_password_spec, is_authorized, token_password_spec,
};
use crate::coordinator::{
    apply_edit, effects_of_edit, push_effect, recent_of, registry_after_edit, remember_op_id,
    Effect, EffectView,
};
use crate::presence::{
    bucket_of, lists_bucket, presence_opened, presence_with, presence_without, register_presence,
    registered, remove_presence, touch_presence, touched, update_presence_cursor,
    update_presence_ime, update_presence_profile, with_cursor, with_ime, with_profile,
};
use crate::recent::{ids_after_insert, RECENT_OPS_CAP};
use crate::state::{same_settings, AppState, RegistryView};
use crate::storage::{slug_rel_spec, slug_to_rel_path, wal_entry, StateError};
use crate::text::{starts_with, str_eq};
use crate::types::{
    ClientMsg, CompatOpContext, CursorState, DocEvent, DocEventView, Edit, EditView, ImeEvent,
    ImeEventView, OpKind, PresenceState, PresenceView, ServerMsg, ServerMsgView, WalEntryView,
    CURRENT_WAL_VERSION,
};

verus! {

/// The query of a request to open a session.
#[derive(Debug, PartialEq, Eq)]
pub struct WsQuery {
    pub slug: String,
    pub token: Option<String>,
    pub password: Option<String>,
}

/// What a session knows of its client.
#[derive(Debug, Clone, Copy, PartialEq, Eq)]
pub struct ClientMeta {
    pub id: u128,
    pub compat: bool,
}

/// The state of one session.
#[derive(Debug, Clone, Copy, PartialEq, Eq)]
pub struct Session {
    pub established: bool,
    pub client_meta: Option<ClientMeta>,
}

/// Why a message ends its session.
#[derive(Debug, Clone, Copy, PartialEq, Eq)]
pub enum SessionError {
    /// A greeting names another document than the one of the session.
    SlugMismatch,
    /// A join carries no password that opens the document.
    Unauthorized,
    /// An operation of the older protocol names no client, and none is
    /// known.
    MissingClientId,
    /// The document of the session cannot be served.
    Unavailable(StateError),
}

/// The answer to a request to open a session.
#[derive(Debug, Clone, Copy, PartialEq, Eq)]
pub enum UpgradeDecision {
    /// The origin of the request is not allowed: status 403.
    Forbidden,
    /// The slug is invalid, or its document is not loaded: status 400.
    BadRequest,
    /// The password is missing or wrong: status 401.
    Unauthorized,
    /// The session may begin.
    Upgrade,
}

/// Where a message leaves its session: the state of the session, the
/// registry, and what is to be done, or why the session ends.
pub struct Outcome {
    pub session: Session,
    pub reg: RegistryView,
    pub result: Result<Seq<EffectView>, SessionError>,
}

/// The effects of a message, or the reason why the session ends, with the
/// effects in their mathematical form.
pub open spec fn result_view(res: Result<Vec<Effect>, SessionError>) -> Result<
    Seq<EffectView>,
    SessionError,
> {
    match res {
        Ok(effects) => Ok(effects.deep_view()),
        Err(e) => Err(e),
    }
}

/// A message that changes nothing and asks for nothing.
pub open spec fn ignored(s: Session, reg: RegistryView) -> Outcome {
    Outcome { session: s, reg, result: Ok(Seq::empty()) }
}

/// A message that ends the session and changes nothing.
pub open spec fn refused(s: Session, reg: RegistryView, e: SessionError) -> Outcome {
    Outcome { session: s, reg, result: Err(e) }
}

/// Why the document of `slug` cannot be served, if it cannot.
pub open spec fn unavailable(reg: RegistryView, slug: Seq<char>) -> Option<StateError> {
    match slug_rel_spec(slug) {
        Err(e) => Some(StateError::InvalidSlug(e)),
        Ok(_) => if reg.docs.contains_key(slug) {
            None
        } else {
            Some(StateError::NotLoaded)
        },
    }
}

/// Whether a request from `origin` may open a session: always in
/// development and where no origin is named as allowed; else where the
/// request names its origin and that begins with one that is allowed.
pub open spec fn origin_allowed_spec(
    dev: bool,
    allowed: Seq<Seq<char>>,
    origin: Option<Seq<char>>,
) -> bool {
    dev || allowed.len() == 0 || (origin is Some && exists|i: int|
        0 <= i < allowed.len() && (#[trigger] allowed[i]).is_prefix_of(origin->0))
}

/// The password that a request to open a session carries: the one of its
/// query, else the one of its `Authorization` header, else the one of the
/// token of its query.
pub open spec fn provided_password_spec(
    password: Option<Seq<char>>,
    header: Option<Seq<char>>,
    token: Option<Seq<char>>,
    slug: Seq<char>,
) -> Option<Seq<char>> {
    if password is Some {
        password
    } else if header_password_spec(header, slug) is Some {
        header_password_spec(header, slug)
    } else {
        match token {
            Some(t) => token_password_spec(t, slug),
            None => None,
        }
    }
}

/// The answer to a request to open a session.
pub open spec fn upgrade_spec(
    state: AppState,
    q: WsQuery,
    origin: Option<Seq<char>>,
    header: Option<Seq<char>>,
) -> UpgradeDecision {
    if !origin_allowed_spec(state.app_env_dev, state.allowed_origins.deep_view(), origin) {
        UpgradeDecision::Forbidden
    } else if unavailable(state@, q.slug@) is Some {
        UpgradeDecision::BadRequest
    } else if !authorized_spec(
        state@.docs[q.slug@].password_hash,
        provided_password_spec(q.password.deep_view(), header, q.token.deep_view(), q.slug@),
    ) {
        UpgradeDecision::Unauthorized
    } else {
        UpgradeDecision::Upgrade
    }
}

/// The presence buckets after the client `id` of `slug` was seen at `now`.
pub open spec fn presence_touched(reg: RegistryView, slug: Seq<char>, id: u128, now: u64) -> Map<
    Seq<char>,
    Map<u128, PresenceView>,
> {
    if bucket_of(reg, slug).contains_key(id) {
        presence_with(reg, slug, id, touched(bucket_of(reg, slug)[id], now))
    } else {
        presence_opened(reg, slug)
    }
}

/// The presence buckets after the client of a session, if it has one, was
/// seen at `now`.
pub open spec fn presence_seen(reg: RegistryView, slug: Seq<char>, s: Session, now: u64) -> Map<
    Seq<char>,
    Map<u128, PresenceView>,
> {
    match s.client_meta {
        Some(meta) => presence_touched(reg, slug, meta.id, now),
        None => reg.presence,
    }
}

/// The announcement of clients that came, changed or left.
pub open spec fn presence_diff(
    slug: Seq<char>,
    added: Seq<PresenceView>,
    updated: Seq<PresenceView>,
    removed: Seq<u128>,
) -> EffectView {
    EffectView::Broadcast { msg: ServerMsgView::PresenceDiff { slug, added, updated, removed } }
}

/// The remembered ids after an event with the operation id `op_id`.
pub open spec fn recent_noted(reg: RegistryView, slug: Seq<char>, op_id: Option<u128>) -> Map<
    Seq<char>,
    Seq<u128>,
> {
    match op_id {
        Some(id) => reg.recent.insert(
            slug,
            ids_after_insert(recent_of(reg, slug), RECENT_OPS_CAP, id),
        ),
        None => reg.recent,
    }
}

/// Whether an event with the operation id `op_id` is new to the log: it has
/// no id, or one that is not remembered.
pub open spec fn is_news(reg: RegistryView, slug: Seq<char>, op_id: Option<u128>) -> bool {
    match op_id {
        Some(id) => !recent_of(reg, slug).contains(id),
        None => true,
    }
}

/// The request to log an event that may be lost.
pub open spec fn logged(event: DocEventView, ts: u64) -> EffectView {
    EffectView::AppendWal {
        entry: WalEntryView { version: CURRENT_WAL_VERSION, ts, event },
        required: false,
    }
}

/// A time that a message may carry, else the server's.
pub open spec fn or_now(ts: Option<u64>, now: u64) -> u64 {
    match ts {
        Some(t) => t,
        None => now,
    }
}

/// What a greeting does: nothing in a session that is established; it ends
/// the session where it names another document; else the client is
/// registered, is sent the clients of the document, and is announced.
pub open spec fn hello_post(
    s: Session,
    reg: RegistryView,
    slug: Seq<char>,
    hello_slug: Seq<char>,
    client_id: u128,
    label: Option<Seq<char>>,
    color: Option<Seq<char>>,
    now: u64,
    out: Outcome,
) -> bool {
    if s.established {
        out == ignored(s, reg)
    } else if hello_slug != slug {
        out == refused(s, reg, SessionError::SlugMismatch)
    } else {
        let entry = registered(client_id, label, color, now);
        &&& out.session == Session {
            established: true,
            client_meta: Some(ClientMeta { id: client_id, compat: false }),
        }
        &&& out.reg == RegistryView { presence: presence_with(reg, slug, client_id, entry), ..reg }
        &&& out.result matches Ok(effects)
        &&& effects.len() == 2
        &&& effects[0] matches EffectView::Send {
            msg: ServerMsgView::PresenceSnapshot { slug: to, clients },
        }
        &&& to == slug
        &&& lists_bucket(clients, out.reg.presence[slug])
        &&& effects[1] == presence_diff(slug, seq![entry], Seq::empty(), Seq::empty())
    }
}

/// The password that a join carries: its own, else the one of its token.
pub open spec fn join_password(
    password: Option<Seq<char>>,
    token: Option<Seq<char>>,
    slug: Seq<char>,
) -> Option<Seq<char>> {
    if password is Some {
        password
    } else {
        match token {
            Some(t) => token_password_spec(t, slug),
            None => None,
        }
    }
}

/// What a join of the older protocol does: nothing where it names another
/// document; it ends the session where the document cannot be served or the
/// password does not open it; else the client is registered, is sent the
/// clients of the document, is announced, and is sent the document.
pub open spec fn join_post(
    s: Session,
    reg: RegistryView,
    slug: Seq<char>,
    session_id: Seq<char>,
    client_id: u128,
    label: Option<Seq<char>>,
    color: Option<Seq<char>>,
    password: Option<Seq<char>>,
    token: Option<Seq<char>>,
    now: u64,
    out: Outcome,
) -> bool {
    if session_id != slug {
        out == ignored(s, reg)
    } else if unavailable(reg, slug) is Some {
        out == refused(s, reg, SessionError::Unavailable(unavailable(reg, slug)->0))
    } else if !authorized_spec(reg.docs[slug].password_hash, join_password(password, token, slug)) {
        out == refused(s, reg, SessionError::Unauthorized)
    } else {
        let entry = registered(client_id, label, color, now);
        &&& out.session == Session {
            established: true,
            client_meta: Some(ClientMeta { id: client_id, compat: true }),
        }
        &&& out.reg == RegistryView { presence: presence_with(reg, slug, client_id, entry), ..reg }
        &&& out.result matches Ok(effects)
        &&& effects.len() == 3
        &&& effects[0] matches EffectView::Send {
            msg: ServerMsgView::PresenceSnapshot { slug: to, clients },
        }
        &&& to == slug
        &&& lists_bucket(clients, out.reg.presence[slug])
        &&& effects[1] == presence_diff(slug, seq![entry], Seq::empty(), Seq::empty())
        &&& effects[2] == EffectView::Send {
            msg: ServerMsgView::CompatSnapshot {
                session_id: slug,
                rev: reg.docs[slug].rev,
                content: reg.docs[slug].content,
                presence: Some(clients),
            },
        }
    }
}

/// The edit that an operation of the older protocol stands for.
pub open spec fn compat_edit(
    operation: crate::types::Op,
    context: CompatOpContext,
    effective: u128,
    now: u64,
) -> EditView {
    EditView {
        base_rev: context.base_version,
        ops: seq![operation],
        client_id: Some(
            match context.client_id {
                Some(id) => id,
                None => effective,
            },
        ),
        op_id: context.op_id,
        cursor_before: None,
        cursor_after: match context.selection {
            Some(selection) => Some(
                CursorState {
                    position: selection.position,
                    anchor: selection.anchor,
                    selection_direction: selection.selection_direction,
                },
            ),
            None => None,
        },
        ts: Some(or_now(context.ts, now)),
    }
}

/// What an operation of the older protocol does: nothing where it names
/// another document. Else the session is established by it; it ends the
/// session where the document cannot be served, or where neither the session
/// nor the operation names a client; else the client is seen and the
/// operation is taken in as an edit.
pub open spec fn compat_op_spec(
    s: Session,
    reg: RegistryView,
    idle_ms: u64,
    max_ops: usize,
    slug: Seq<char>,
    session_id: Seq<char>,
    operation: crate::types::Op,
    context: CompatOpContext,
    now: u64,
) -> Outcome {
    let begun = Session { established: true, ..s };
    if session_id != slug {
        ignored(s, reg)
    } else if unavailable(reg, slug) is Some {
        refused(begun, reg, SessionError::Unavailable(unavailable(reg, slug)->0))
    } else if s.client_meta is None && context.client_id is None {
        refused(begun, reg, SessionError::MissingClientId)
    } else {
        let effective = match s.client_meta {
            Some(meta) => meta.id,
            None => context.client_id->0,
        };
        let seen = RegistryView { presence: presence_touched(reg, slug, effective, now), ..reg };
        let edit = compat_edit(operation, context, effective, now);
        Outcome {
            session: Session {
                established: true,
                client_meta: Some(ClientMeta { id: effective, compat: true }),
            },
            reg: registry_after_edit(seen, slug, edit, now, idle_ms, max_ops),
            result: Ok(effects_of_edit(seen, slug, edit, now, idle_ms, max_ops)),
        }
    }
}

/// What an edit does: nothing before the session is established or without
/// a client; it ends the session where the document cannot be served; else
/// the client is seen and the edit is taken in, under the client's id and
/// the server's time where it carries none.
pub open spec fn edit_spec(
    s: Session,
    reg: RegistryView,
    idle_ms: u64,
    max_ops: usize,
    slug: Seq<char>,
    edit: EditView,
    now: u64,
) -> Outcome {
    if !s.established || s.client_meta is None {
        ignored(s, reg)
    } else if unavailable(reg, slug) is Some {
        refused(s, reg, SessionError::Unavailable(unavailable(reg, slug)->0))
    } else {
        let id = s.client_meta->0.id;
        let seen = RegistryView { presence: presence_touched(reg, slug, id, now), ..reg };
        let filled = EditView {
            client_id: if edit.client_id is Some {
                edit.client_id
            } else {
                Some(id)
            },
            ts: Some(or_now(edit.ts, now)),
            ..edit
        };
        Outcome {
            session: s,
            reg: registry_after_edit(seen, slug, filled, now, idle_ms, max_ops),
            result: Ok(effects_of_edit(seen, slug, filled, now, idle_ms, max_ops)),
        }
    }
}

/// What follows an update of the presence entry of the session's client by
/// an event: the event is logged where it is new, and it and the entry are
/// announced. `event` is the log's form of it and `msg` the wire's.
pub open spec fn announced(
    reg: RegistryView,
    slug: Seq<char>,
    op_id: Option<u128>,
    ts: u64,
    event: DocEventView,
    msg: ServerMsgView,
    entry: PresenceView,
) -> Seq<EffectView> {
    (if is_news(reg, slug, op_id) {
        seq![logged(event, ts)]
    } else {
        Seq::empty()
    }) + seq![
        EffectView::Broadcast { msg },
        presence_diff(slug, Seq::empty(), seq![entry], Seq::empty()),
    ]
}

/// What a cursor message does: nothing before the session is established or
/// without a client; for a client that is present, its cursor is the new
/// one, the event is logged where its operation id is new, and cursor and
/// presence are announced.
pub open spec fn cursor_spec(
    s: Session,
    reg: RegistryView,
    slug: Seq<char>,
    cursor: CursorState,
    op_id: Option<u128>,
    ts: Option<u64>,
    now: u64,
) -> Outcome {
    if !s.established || s.client_meta is None {
        ignored(s, reg)
    } else {
        let id = s.client_meta->0.id;
        if bucket_of(reg, slug).contains_key(id) {
            let entry = with_cursor(bucket_of(reg, slug)[id], cursor, now);
            Outcome {
                session: s,
                reg: RegistryView {
                    presence: presence_with(reg, slug, id, entry),
                    recent: recent_noted(reg, slug, op_id),
                    ..reg
                },
                result: Ok(
                    announced(
                        reg,
                        slug,
                        op_id,
                        or_now(ts, now),
                        DocEventView::Cursor { client_id: id, op_id, cursor },
                        ServerMsgView::Cursor {
                            slug,
                            client_id: id,
                            cursor,
                            op_id,
                            ts: or_now(ts, now),
                        },
                        entry,
                    ),
                ),
            }
        } else {
            Outcome {
                session: s,
                reg: RegistryView { presence: presence_opened(reg, slug), ..reg },
                result: Ok(Seq::empty()),
            }
        }
    }
}

/// What an input-method message does: as a cursor message, with the
/// composition state in place of the cursor.
pub open spec fn ime_spec(
    s: Session,
    reg: RegistryView,
    slug: Seq<char>,
    ime: ImeEventView,
    op_id: Option<u128>,
    ts: Option<u64>,
    now: u64,
) -> Outcome {
    if !s.established || s.client_meta is None {
        ignored(s, reg)
    } else {
        let id = s.client_meta->0.id;
        if bucket_of(reg, slug).contains_key(id) {
            let entry = with_ime(bucket_of(reg, slug)[id], ime, now);
            Outcome {
                session: s,
                reg: RegistryView {
                    presence: presence_with(reg, slug, id, entry),
                    recent: recent_noted(reg, slug, op_id),
                    ..reg
                },
                result: Ok(
                    announced(
                        reg,
                        slug,
                        op_id,
                        or_now(ts, now),
                        DocEventView::Ime { client_id: id, op_id, ime },
                        ServerMsgView::Ime { slug, client_id: id, ime, op_id, ts: or_now(ts, now) },
                        entry,
                    ),
                ),
            }
        } else {
            Outcome {
                session: s,
                reg: RegistryView { presence: presence_opened(reg, slug), ..reg },
                result: Ok(Seq::empty()),
            }
        }
    }
}

/// What a profile message does: nothing before the session is established,
/// without a client, or where it names another document; for a client that
/// is present, label and colour change and the entry is announced.
pub open spec fn profile_spec(
    s: Session,
    reg: RegistryView,
    slug: Seq<char>,
    profile_slug: Seq<char>,
    label: Option<Seq<char>>,
    color: Option<Seq<char>>,
    now: u64,
) -> Outcome {
    if !s.established || s.client_meta is None || profile_slug != slug {
        ignored(s, reg)
    } else {
        let id = s.client_meta->0.id;
        if bucket_of(reg, slug).contains_key(id) {
            let entry = with_profile(bucket_of(reg, slug)[id], label, color, now);
            Outcome {
                session: s,
                reg: RegistryView { presence: presence_with(reg, slug, id, entry), ..reg },
                result: Ok(seq![presence_diff(slug, Seq::empty(), seq![entry], Seq::empty())]),
            }
        } else {
            Outcome {
                session: s,
                reg: RegistryView { presence: presence_opened(reg, slug), ..reg },
                result: Ok(Seq::empty()),
            }
        }
    }
}

/// What a ping does in an established session: the client is seen, and the
/// ping is answered with its own time.
pub open spec fn ping_spec(
    s: Session,
    reg: RegistryView,
    slug: Seq<char>,
    ts: Option<u64>,
    now: u64,
) -> Outcome {
    if !s.established {
        ignored(s, reg)
    } else {
        Outcome {
            session: s,
            reg: RegistryView { presence: presence_seen(reg, slug, s, now), ..reg },
            result: Ok(seq![EffectView::Send { msg: ServerMsgView::Pong { ts } }]),
        }
    }
}

/// What a pong does in an established session: the client is seen.
pub open spec fn pong_spec(s: Session, reg: RegistryView, slug: Seq<char>, now: u64) -> Outcome {
    if !s.established {
        ignored(s, reg)
    } else {
        Outcome {
            session: s,
            reg: RegistryView { presence: presence_seen(reg, slug, s, now), ..reg },
            result: Ok(Seq::empty()),
        }
    }
}

/// What the end of a session does: its client leaves the document, and that
/// is announced, under the id that its entry holds, where the client was
/// present.
pub open spec fn disconnect_spec(s: Session, reg: RegistryView, slug: Seq<char>) -> Outcome {
    match s.client_meta {
        Some(meta) => Outcome {
            session: s,
            reg: RegistryView { presence: presence_without(reg, slug, meta.id), ..reg },
            result: Ok(
                if bucket_of(reg, slug).contains_key(meta.id) {
                    seq![
                        presence_diff(
                            slug,
                            Seq::empty(),
                            Seq::empty(),
                            seq![bucket_of(reg, slug)[meta.id].client_id],
                        ),
                    ]
                } else {
                    Seq::empty()
                },
            ),
        },
        None => ignored(s, reg),
    }
}

/// Whether `out` is where the message `msg` leaves a session of `slug`.
pub open spec fn handled(
    s: Session,
    reg: RegistryView,
    idle_ms: u64,
    max_ops: usize,
    slug: Seq<char>,
    msg: ClientMsg,
    now: u64,
    out: Outcome,
) -> bool {
    match msg {
        ClientMsg::Hello { slug: hello_slug, client_id, label, color } => hello_post(
            s,
            reg,
            slug,
            hello_slug@,
            client_id,
            label.deep_view(),
            color.deep_view(),
            now,
            out,
        ),
        ClientMsg::Join { session_id, client_id, label, color, password, token } => join_post(
            s,
            reg,
            slug,
            session_id@,
            client_id,
            label.deep_view(),
            color.deep_view(),
            password.deep_view(),
            token.deep_view(),
            now,
            out,
        ),
        ClientMsg::CompatOp { session_id, operation, context } => out == compat_op_spec(
            s,
            reg,
            idle_ms,
            max_ops,
            slug,
            session_id@,
            operation.deep_view(),
            context,
            now,
        ),
        ClientMsg::Edit { slug: _, edit } => out == edit_spec(
            s,
            reg,
            idle_ms,
            max_ops,
            slug,
            edit.deep_view(),
            now,
        ),
        ClientMsg::Cursor { slug: _, cursor, op_id, ts } => out == cursor_spec(
            s,
            reg,
            slug,
            cursor,
            op_id,
            ts,
            now,
        ),
        ClientMsg::Ime { slug: _, ime, op_id, ts } => out == ime_spec(
            s,
            reg,
            slug,
            ime.deep_view(),
            op_id,
            ts,
            now,
        ),
        ClientMsg::Profile { slug: profile_slug, label, color } => out == profile_spec(
            s,
            reg,
            slug,
            profile_slug@,
            label.deep_view(),
            color.deep_view(),
            now,
        ),
        ClientMsg::Ping { ts } => out == ping_spec(s, reg, slug, ts, now),
        ClientMsg::Pong => out == pong_spec(s, reg, slug, now),
    }
}

/// Where a call leaves a session, as an [`Outcome`].
pub open spec fn outcome(
    session: Session,
    state: AppState,
    res: Result<Vec<Effect>, SessionError>,
) -> Outcome {
    Outcome { session, reg: state@, result: result_view(res) }
}

/// No effect at all.
fn no_effects() -> (res: Vec<Effect>)
    ensures
        res.deep_view() == Seq::<EffectView>::empty(),
{
    let res: Vec<Effect> = Vec::new();
    res
}

/// A list of one presence entry.
fn one(entry: PresenceState) -> (res: Vec<PresenceState>)
    ensures
        res.deep_view() == seq![entry.deep_view()],
{
    let mut res: Vec<PresenceState> = Vec::new();
    res.push(entry);
    res
}

/// A list of no presence entry.
fn nobody() -> (res: Vec<PresenceState>)
    ensures
        res.deep_view() == Seq::<PresenceView>::empty(),
{
    let res: Vec<PresenceState> = Vec::new();
    res
}

/// Copies a list of presence entries.
fn clone_entries(entries: &Vec<PresenceState>) -> (res: Vec<PresenceState>)
    ensures
        res.deep_view() == entries.deep_view(),
{
    let res = entries.clone();
    res
}

/// The announcement of clients that came, changed or left.
fn diff_effect(
    slug: &str,
    added: Vec<PresenceState>,
    updated: Vec<PresenceState>,
    removed: Vec<u128>,
) -> (res: Effect)
    ensures
        res.deep_view() == presence_diff(
            slug@,
            added.deep_view(),
            updated.deep_view(),
            removed@,
        ),
{
    Effect::Broadcast {
        msg: ServerMsg::PresenceDiff { slug: slug.to_owned(), added, updated, removed },
    }
}

/// Why the document of `slug` cannot be served, if it cannot.
pub fn require_served(state: &AppState, slug: &str) -> (res: Option<StateError>)
    requires
        state.wf(),
    ensures
        res == unavailable(state@, slug@),
{
    match slug_to_rel_path(slug) {
        Err(e) => Some(StateError::InvalidSlug(e)),
        Ok(_) => if state.registry.has_doc(slug) {
            None
        } else {
            Some(StateError::NotLoaded)
        },
    }
}

/// Whether a request from `origin` may open a session.
pub fn origin_allowed(state: &AppState, origin: Option<&str>) -> (res: bool)
    ensures
        res == origin_allowed_spec(
            state.app_env_dev,
            state.allowed_origins.deep_view(),
            origin.deep_view(),
        ),
{
    if state.app_env_dev || state.allowed_origins.len() == 0 {
        return true;
    }
    let site = match origin {
        Some(site) => site,
        None => {
            return false;
        },
    };
    let ghost allowed = state.allowed_origins.deep_view();
    let mut k: usize = 0;
    while k < state.allowed_origins.len()
        invariant
            k <= state.allowed_origins.len(),
            !state.app_env_dev,
            origin.deep_view() == Some(site@),
            allowed == state.allowed_origins.deep_view(),
            allowed.len() > 0,
            forall|i: int| 0 <= i < k ==> !(#[trigger] allowed[i]).is_prefix_of(site@),
        decreases state.allowed_origins.len() - k,
    {
        if starts_with(site, state.allowed_origins[k].as_str()) {
            assert(allowed[k as int].is_prefix_of(site@));
            return true;
        }
        k += 1;
    }
    false
}

/// The password that a request to open a session carries.
fn provided_password(
    password: &Option<String>,
    header: Option<&str>,
    token: &Option<String>,
    slug: &str,
) -> (res: Option<String>)
    ensures
        res.deep_view() == provided_password_spec(
            password.deep_view(),
            header.deep_view(),
            token.deep_view(),
            slug@,
        ),
{
    match password {
        Some(p) => Some(p.clone()),
        None => match extract_password_from_headers(header, slug) {
            Some(p) => Some(p),
            None => match token {
                Some(t) => extract_password_from_token(t.as_str(), slug),
                None => None,
            },
        },
    }
}

/// Whether `provided` opens the document of `slug`, which is loaded.
fn opens(state: &AppState, slug: &str, provided: &Option<String>) -> (res: bool)
    requires
        state.wf(),
        state@.docs.contains_key(slug@),
    ensures
        res == authorized_spec(state@.docs[slug@].password_hash, provided.deep_view()),
{
    match state.registry.doc(slug) {
        Some(doc) => match provided {
            Some(p) => is_authorized(doc, Some(p.as_str())),
            None => is_authorized(doc, None),
        },
        None => false,
    }
}

/// Answers a request to open a session on the document of the query.
/// `origin` and `authorization` are the values of the request's headers of
/// these names, where it has them.
pub fn ws_handler(
    state: &AppState,
    q: &WsQuery,
    origin: Option<&str>,
    authorization: Option<&str>,
) -> (res: UpgradeDecision)
    requires
        state.wf(),
    ensures
        res == upgrade_spec(*state, *q, origin.deep_view(), authorization.deep_view()),
{
    if !origin_allowed(state, origin) {
        return UpgradeDecision::Forbidden;
    }
    let slug = q.slug.as_str();
    let provided = provided_password(&q.password, authorization, &q.token, slug);
    if require_served(state, slug).is_some() {
        return UpgradeDecision::BadRequest;
    }
    if !opens(state, slug, &provided) {
        return UpgradeDecision::Unauthorized;
    }
    UpgradeDecision::Upgrade
}

/// Notes that the client of the session, if it has one, was seen at `now`.
fn touch_client(state: &mut AppState, slug: &str, session: &Session, now: u64)
    requires
        old(state).wf(),
    ensures
        final(state).wf(),
        same_settings(*old(state), *final(state)),
        final(state)@ == (RegistryView {
            presence: presence_seen(old(state)@, slug@, *session, now),
            ..old(state)@
        }),
{
    match session.client_meta {
        Some(meta) => {
            touch_presence(state, slug, &meta.id, now);
        },
        None => {},
    }
}

fn handle_hello(
    session: &mut Session,
    state: &mut AppState,
    slug: &str,
    hello_slug: String,
    client_id: u128,
    label: Option<String>,
    color: Option<String>,
    now: u64,
) -> (res: Result<Vec<Effect>, SessionError>)
    requires
        old(state).wf(),
    ensures
        final(state).wf(),
        same_settings(*old(state), *final(state)),
        hello_post(
            *old(session),
            old(state)@,
            slug@,
            hello_slug@,
            client_id,
            label.deep_view(),
            color.deep_view(),
            now,
            outcome(*final(session), *final(state), res),
        ),
{
    if session.established {
        return Ok(no_effects());
    }
    if !str_eq(hello_slug.as_str(), slug) {
        return Err(SessionError::SlugMismatch);
    }
    session.client_meta = Some(ClientMeta { id: client_id, compat: false });
    let (snapshot, added) = register_presence(state, slug, client_id, label, color, now);
    let mut effects: Vec<Effect> = no_effects();
    push_effect(
        &mut effects,
        Effect::Send {
            msg: ServerMsg::PresenceSnapshot { slug: slug.to_owned(), clients: snapshot },
        },
    );
    push_effect(&mut effects, diff_effect(slug, one(added), nobody(), Vec::new()));
    session.established = true;
    Ok(effects)
}

fn handle_compat_join(
    state: &mut AppState,
    slug: &str,
    session: &mut Session,
    session_id: String,
    client_id: u128,
    label: Option<String>,
    color: Option<String>,
    password: Option<String>,
    token: Option<String>,
    now: u64,
) -> (res: Result<Vec<Effect>, SessionError>)
    requires
        old(state).wf(),
    ensures
        final(state).wf(),
        same_settings(*old(state), *final(state)),
        join_post(
            *old(session),
            old(state)@,
            slug@,
            session_id@,
            client_id,
            label.deep_view(),
            color.deep_view(),
            password.deep_view(),
            token.deep_view(),
            now,
            outcome(*final(session), *final(state), res),
        ),
{
    if !str_eq(session_id.as_str(), slug) {
        return Ok(no_effects());
    }
    match require_served(state, slug) {
        Some(e) => {
            return Err(SessionError::Unavailable(e));
        },
        None => {},
    }
    let provided = match password {
        Some(p) => Some(p),
        None => match &token {
            Some(t) => extract_password_from_token(t.as_str(), slug),
            None => None,
        },
    };
    if !opens(state, slug, &provided) {
        return Err(SessionError::Unauthorized);
    }
    let (rev, content) = match state.registry.doc(slug) {
        Some(doc) => (doc.rev, doc.content.clone()),
        None => {
            return Err(SessionError::Unavailable(StateError::NotLoaded));
        },
    };
    session.client_meta = Some(ClientMeta { id: client_id, compat: true });
    let (snapshot, added) = register_presence(state, slug, client_id, label, color, now);
    let mut effects: Vec<Effect> = no_effects();
    push_effect(
        &mut effects,
        Effect::Send {
            msg: ServerMsg::PresenceSnapshot {
                slug: slug.to_owned(),
                clients: clone_entries(&snapshot),
            },
        },
    );
    push_effect(&mut effects, diff_effect(slug, one(added), nobody(), Vec::new()));
    push_effect(
        &mut effects,
        Effect::Send {
            msg: ServerMsg::CompatSnapshot {
                session_id: slug.to_owned(),
                rev,
                content,
                presence: Some(snapshot),
            },
        },
    );
    session.established = true;
    Ok(effects)
}

/// Takes an edit in for a handler, with the failure as a session's.
fn submit(state: &mut AppState, slug: &str, edit: Edit, now: u64) -> (res: Result<
    Vec<Effect>,
    SessionError,
>)
    requires
        old(state).wf(),
        unavailable(old(state)@, slug@) is None,
    ensures
        final(state).wf(),
        same_settings(*old(state), *final(state)),
        res is Ok,
        final(state)@ == registry_after_edit(
            old(state)@,
            slug@,
            edit.deep_view(),
            now,
            old(state).flush_idle_ms,
            old(state).flush_max_ops,
        ),
        result_view(res) == Ok::<Seq<EffectView>, SessionError>(
            effects_of_edit(
                old(state)@,
                slug@,
                edit.deep_view(),
                now,
                old(state).flush_idle_ms,
                old(state).flush_max_ops,
            ),
        ),
{
    match apply_edit(state, slug, edit, now) {
        Ok(effects) => Ok(effects),
        Err(e) => Err(SessionError::Unavailable(e)),
    }
}

fn handle_compat_op(
    state: &mut AppState,
    slug: &str,
    session: &mut Session,
    session_id: String,
    operation: OpKind,
    context: CompatOpContext,
    now: u64,
) -> (res: Result<Vec<Effect>, SessionError>)
    requires
        old(state).wf(),
    ensures
        final(state).wf(),
        same_settings(*old(state), *final(state)),
        outcome(*final(session), *final(state), res) == compat_op_spec(
            *old(session),
            old(state)@,
            old(state).flush_idle_ms,
            old(state).flush_max_ops,
            slug@,
            session_id@,
            operation.deep_view(),
            context,
            now,
        ),
{
    if !str_eq(session_id.as_str(), slug) {
        return Ok(no_effects());
    }
    session.established = true;
    match require_served(state, slug) {
        Some(e) => {
            return Err(SessionError::Unavailable(e));
        },
        None => {},
    }
    let effective = match session.client_meta {
        Some(meta) => meta.id,
        None => match context.client_id {
            Some(id) => id,
            None => {
                return Err(SessionError::MissingClientId);
            },
        },
    };
    session.client_meta = Some(ClientMeta { id: effective, compat: true });
    touch_presence(state, slug, &effective, now);
    let mut ops: Vec<OpKind> = Vec::new();
    ops.push(operation);
    assert(ops.deep_view() =~= seq![operation.deep_view()]);
    let edit = Edit {
        base_rev: context.base_version,
        ops,
        client_id: Some(
            match context.client_id {
                Some(id) => id,
                None => effective,
            },
        ),
        op_id: context.op_id,
        cursor_before: None,
        cursor_after: match context.selection {
            Some(selection) => Some(CursorState::from(selection)),
            None => None,
        },
        ts: Some(
            match context.ts {
                Some(ts) => ts,
                None => now,
            },
        ),
    };
    submit(state, slug, edit, now)
}

fn handle_edit(state: &mut AppState, slug: &str, session: &Session, edit: Edit, now: u64) -> (res:
    Result<Vec<Effect>, SessionError>)
    requires
        old(state).wf(),
    ensures
        final(state).wf(),
        same_settings(*old(state), *final(state)),
        outcome(*session, *final(state), res) == edit_spec(
            *session,
            old(state)@,
            old(state).flush_idle_ms,
            old(state).flush_max_ops,
            slug@,
            edit.deep_view(),
            now,
        ),
{
    if !session.established {
        return Ok(no_effects());
    }
    let id = match session.client_meta {
        Some(meta) => meta.id,
        None => {
            return Ok(no_effects());
        },
    };
    match require_served(state, slug) {
        Some(e) => {
            return Err(SessionError::Unavailable(e));
        },
        None => {},
    }
    touch_presence(state, slug, &id, now);
    let mut edit = edit;
    if edit.client_id.is_none() {
        edit.client_id = Some(id);
    }
    edit.ts = Some(
        match edit.ts {
            Some(ts) => ts,
            None => now,
        },
    );
    submit(state, slug, edit, now)
}

/// Logs an event where its operation id is new, and announces it and the
/// presence entry that it changed.
fn announce(
    state: &mut AppState,
    slug: &str,
    op_id: Option<u128>,
    ts: u64,
    event: DocEvent,
    msg: ServerMsg,
    updated: PresenceState,
) -> (res: Vec<Effect>)
    requires
        old(state).wf(),
    ensures
        final(state).wf(),
        same_settings(*old(state), *final(state)),
        final(state)@ == (RegistryView {
            recent: recent_noted(old(state)@, slug@, op_id),
            ..old(state)@
        }),
        res.deep_view() == announced(
            old(state)@,
            slug@,
            op_id,
            ts,
            event.deep_view(),
            msg.deep_view(),
            updated.deep_view(),
        ),
{
    let news = match op_id {
        Some(id) => remember_op_id(state, slug, id),
        None => true,
    };
    let mut effects: Vec<Effect> = no_effects();
    if news {
        push_effect(
            &mut effects,
            Effect::AppendWal { entry: wal_entry(event, ts), required: false },
        );
    }
    push_effect(&mut effects, Effect::Broadcast { msg });
    push_effect(&mut effects, diff_effect(slug, nobody(), one(updated), Vec::new()));
    effects
}

fn handle_cursor(
    state: &mut AppState,
    slug: &str,
    session: &Session,
    cursor: CursorState,
    op_id: Option<u128>,
    ts: Option<u64>,
    now: u64,
) -> (res: Result<Vec<Effect>, SessionError>)
    requires
        old(state).wf(),
    ensures
        final(state).wf(),
        same_settings(*old(state), *final(state)),
        outcome(*session, *final(state), res) == cursor_spec(
            *session,
            old(state)@,
            slug@,
            cursor,
            op_id,
            ts,
            now,
        ),
{
    if !session.established {
        return Ok(no_effects());
    }
    let id = match session.client_meta {
        Some(meta) => meta.id,
        None => {
            return Ok(no_effects());
        },
    };
    let ts_value = match ts {
        Some(ts) => ts,
        None => now,
    };
    match update_presence_cursor(state, slug, id, cursor, now) {
        Some(updated) => {
            let event = DocEvent::Cursor { client_id: id, op_id, cursor };
            let msg = ServerMsg::Cursor {
                slug: slug.to_owned(),
                client_id: id,
                cursor,
                op_id,
                ts: ts_value,
            };
            let effects = announce(state, slug, op_id, ts_value, event, msg, updated);
            Ok(effects)
        },
        None => Ok(no_effects()),
    }
}

fn handle_ime(
    state: &mut AppState,
    slug: &str,
    session: &Session,
    ime: ImeEvent,
    op_id: Option<u128>,
    ts: Option<u64>,
    now: u64,
) -> (res: Result<Vec<Effect>, SessionError>)
    requires
        old(state).wf(),
    ensures
        final(state).wf(),
        same_settings(*old(state), *final(state)),
        outcome(*session, *final(state), res) == ime_spec(
            *session,
            old(state)@,
            slug@,
            ime.deep_view(),
            op_id,
            ts,
            now,
        ),
{
    if !session.established {
        return Ok(no_effects());
    }
    let id = match session.client_meta {
        Some(meta) => meta.id,
        None => {
            return Ok(no_effects());
        },
    };
    let ts_value = match ts {
        Some(ts) => ts,
        None => now,
    };
    match update_presence_ime(state, slug, id, &ime, now) {
        Some(updated) => {
            let event = DocEvent::Ime { client_id: id, op_id, ime: ime.clone() };
            let msg = ServerMsg::Ime {
                slug: slug.to_owned(),
                client_id: id,
                ime,
                op_id,
                ts: ts_value,
            };
            let effects = announce(state, slug, op_id, ts_value, event, msg, updated);
            Ok(effects)
        },
        None => Ok(no_effects()),
    }
}

fn handle_profile(
    state: &mut AppState,
    slug: &str,
    session: &Session,
    profile_slug: String,
    label: Option<String>,
    color: Option<String>,
    now: u64,
) -> (res: Result<Vec<Effect>, SessionError>)
    requires
        old(state).wf(),
    ensures
        final(state).wf(),
        same_settings(*old(state), *final(state)),
        outcome(*session, *final(state), res) == profile_spec(
            *session,
            old(state)@,
            slug@,
            profile_slug@,
            label.deep_view(),
            color.deep_view(),
            now,
        ),
{
    if !session.established {
        return Ok(no_effects());
    }
    if !str_eq(profile_slug.as_str(), slug) {
        return Ok(no_effects());
    }
    let id = match session.client_meta {
        Some(meta) => meta.id,
        None => {
            return Ok(no_effects());
        },
    };
    match update_presence_profile(state, slug, id, label, color, now) {
        Some(updated) => {
            let mut effects: Vec<Effect> = no_effects();
            push_effect(&mut effects, diff_effect(slug, nobody(), one(updated), Vec::new()));
            Ok(effects)
        },
        None => Ok(no_effects()),
    }
}

fn handle_ping(
    state: &mut AppState,
    slug: &str,
    session: &Session,
    ts: Option<u64>,
    now: u64,
) -> (res: Result<Vec<Effect>, SessionError>)
    requires
        old(state).wf(),
    ensures
        final(state).wf(),
        same_settings(*old(state), *final(state)),
        outcome(*session, *final(state), res) == ping_spec(*session, old(state)@, slug@, ts, now),
{
    if !session.established {
        return Ok(no_effects());
    }
    touch_client(state, slug, session, now);
    let mut effects: Vec<Effect> = no_effects();
    push_effect(&mut effects, Effect::Send { msg: ServerMsg::Pong { ts } });
    Ok(effects)
}

fn handle_pong(state: &mut AppState, slug: &str, session: &Session, now: u64) -> (res: Result<
    Vec<Effect>,
    SessionError,
>)
    requires
        old(state).wf(),
    ensures
        final(state).wf(),
        same_settings(*old(state), *final(state)),
        outcome(*session, *final(state), res) == pong_spec(*session, old(state)@, slug@, now),
{
    if !session.established {
        return Ok(no_effects());
    }
    touch_client(state, slug, session, now);
    Ok(no_effects())
}

/// Handles one message of a client in a session on the document `slug`, at
/// the server time `now`: changes the session and the registry, and returns
/// what is to be done, in order, or why the session ends. Before a session
/// is established only a greeting, a join or an operation of the older
/// protocol has any effect.
pub fn handle_client_message(
    msg: ClientMsg,
    session: &mut Session,
    state: &mut AppState,
    slug: &str,
    now: u64,
) -> (res: Result<Vec<Effect>, SessionError>)
    requires
        old(state).wf(),
    ensures
        final(state).wf(),
        same_settings(*old(state), *final(state)),
        handled(
            *old(session),
            old(state)@,
            old(state).flush_idle_ms,
            old(state).flush_max_ops,
            slug@,
            msg,
            now,
            outcome(*final(session), *final(state), res),
        ),
{
    match msg {
        ClientMsg::Hello { slug: hello_slug, client_id, label, color } => handle_hello(
            session,
            state,
            slug,
            hello_slug,
            client_id,
            label,
            color,
            now,
        ),
        ClientMsg::Join { session_id, client_id, label, color, password, token } => {
            handle_compat_join(
                state,
                slug,
                session,
                session_id,
                client_id,
                label,
                color,
                password,
                token,
                now,
            )
        },
        ClientMsg::CompatOp { session_id, operation, context } => handle_compat_op(
            state,
            slug,
            session,
            session_id,
            operation,
            context,
            now,
        ),
        ClientMsg::Edit { slug: _, edit } => handle_edit(state, slug, session, edit, now),
        ClientMsg::Cursor { slug: _, cursor, op_id, ts } => handle_cursor(
            state,
            slug,
            session,
            cursor,
            op_id,
            ts,
            now,
        ),
        ClientMsg::Ime { slug: _, ime, op_id, ts } => handle_ime(
            state,
            slug,
            session,
            ime,
            op_id,
            ts,
            now,
        ),
        ClientMsg::Profile { slug: profile_slug, label, color } => handle_profile(
            state,
            slug,
            session,
            profile_slug,
            label,
            color,
            now,
        ),
        ClientMsg::Ping { ts } => handle_ping(state, slug, session, ts, now),
        ClientMsg::Pong => handle_pong(state, slug, session, now),
    }
}

/// Ends a session: its client leaves the document, and where it was present
/// that is announced.
pub fn disconnect(session: &Session, state: &mut AppState, slug: &str) -> (res: Vec<Effect>)
    requires
        old(state).wf(),
    ensures
        final(state).wf(),
        same_settings(*old(state), *final(state)),
        outcome(*session, *final(state), Ok(res)) == disconnect_spec(*session, old(state)@, slug@),
{
    match session.client_meta {
        Some(meta) => match remove_presence(state, slug, &meta.id) {
            Some(removed) => {
                let mut gone: Vec<u128> = Vec::new();
                gone.push(removed.client_id);
                let mut effects: Vec<Effect> = no_effects();
                push_effect(&mut effects, diff_effect(slug, nobody(), nobody(), gone));
                effects
            },
            None => no_effects(),
        },
        None => no_effects(),
    }
}

} // verus!
