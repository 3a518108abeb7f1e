//! The coordinator: it takes the edits of all clients of a document in one
//! order, remembers which operation ids it has seen, and says what is to be
//! logged, written out and sent for each.

use vstd::prelude::*;
use crate::document::{apply_ops, apply_ops_spec, transform_ops, transform_ops_spec, Doc, DocView};
use crate::presence::{
    bucket_of, presence_opened, presence_with, update_presence_cursor, with_cursor,
};
use crate::recent::{ids_after_insert, RecentOps, RECENT_OPS_CAP};
use crate::state::{same_settings, AppState, RegistryView};
use crate::storage::{
    flush_due, flushes, slug_rel_spec, slug_to_rel_path, take_snapshot, wal_entry, FlushMode,
    StateError,
};
use crate::types::{
    clone_ops, DocEvent, DocEventView, Edit, EditView, Op, OpKind, PresenceState, PresenceView,
    ServerMsg, ServerMsgView, WalEntryV2, WalEntryView, CURRENT_WAL_VERSION,
};

verus! {

/// Something that the coordinator asks of the process around it. The effects
/// of one call are carried out in their order. Where a log entry that must be
/// written cannot be, the messages after it are dropped and the request
/// fails; a snapshot that is asked for is written all the same, because the
/// document counts as written out from the moment the snapshot is asked for.
#[derive(Debug, PartialEq, Eq)]
pub enum Effect {
    /// Append the entry to the write-ahead log of the slug. `required` says
    /// whether a failure ends the request.
    AppendWal { entry: WalEntryV2, required: bool },
    /// Write the text as the snapshot of the slug.
    WriteSnapshot { text: String },
    /// Send the message to every subscriber of the slug.
    Broadcast { msg: ServerMsg },
    /// Send the message to the connection that is being served.
    Send { msg: ServerMsg },
}

/// The mathematical counterpart of [`Effect`].
pub enum EffectView {
    AppendWal { entry: WalEntryView, required: bool },
    WriteSnapshot { text: Seq<char> },
    Broadcast { msg: ServerMsgView },
    Send { msg: ServerMsgView },
}

impl DeepView for Effect {
    type V = EffectView;

    open spec fn deep_view(&self) -> EffectView {
        match *self {
            Effect::AppendWal { entry, required } => EffectView::AppendWal {
                entry: entry.deep_view(),
                required,
            },
            Effect::WriteSnapshot { text } => EffectView::WriteSnapshot { text: text@ },
            Effect::Broadcast { msg } => EffectView::Broadcast { msg: msg.deep_view() },
            Effect::Send { msg } => EffectView::Send { msg: msg.deep_view() },
        }
    }
}

/// Adds one effect to a list.
pub fn push_effect(effects: &mut Vec<Effect>, effect: Effect)
    ensures
        final(effects).deep_view() == old(effects).deep_view().push(effect.deep_view()),
{
    effects.push(effect);
}

/// The remembered operation ids of `slug`; none where nothing is remembered.
pub open spec fn recent_of(reg: RegistryView, slug: Seq<char>) -> Seq<u128> {
    if reg.recent.contains_key(slug) {
        reg.recent[slug]
    } else {
        Seq::empty()
    }
}

/// Whether the registry remembers the operation id `op_id` for `slug`.
pub fn op_id_seen(state: &AppState, slug: &str, op_id: &u128) -> (res: bool)
    requires
        state.wf(),
    ensures
        res == recent_of(state@, slug@).contains(*op_id),
{
    state.registry.recent_contains(slug, op_id)
}

/// Remembers the operation id `op_id` for `slug` and says whether it was
/// new. Of the ids of one slug the newest 4096 are remembered.
pub fn remember_op_id(state: &mut AppState, slug: &str, op_id: u128) -> (novel: bool)
    requires
        old(state).wf(),
    ensures
        final(state).wf(),
        novel == !recent_of(old(state)@, slug@).contains(op_id),
        final(state)@.recent == old(state)@.recent.insert(
            slug@,
            ids_after_insert(recent_of(old(state)@, slug@), RECENT_OPS_CAP, op_id),
        ),
        final(state)@.recent[slug@].len() <= RECENT_OPS_CAP,
        final(state)@.docs == old(state)@.docs,
        final(state)@.presence == old(state)@.presence,
        same_settings(*old(state), *final(state)),
{
    let mut recent = match state.registry.take_recent(slug) {
        Some(recent) => recent,
        None => RecentOps::new(RECENT_OPS_CAP),
    };
    let novel = recent.insert(op_id);
    state.registry.put_recent(slug, recent);
    novel
}

/// The time of an edit: the one it carries, else the server's.
pub open spec fn edit_ts(edit: EditView, now: u64) -> u64 {
    match edit.ts {
        Some(ts) => ts,
        None => now,
    }
}

/// Whether the edit carries an operation id that is remembered for `slug`.
pub open spec fn is_duplicate(reg: RegistryView, slug: Seq<char>, edit: EditView) -> bool {
    edit.op_id matches Some(id) && recent_of(reg, slug).contains(id)
}

/// The document after an edit was taken in at the time `ts`. An edit that
/// leaves no operation after rebasing changes nothing.
pub open spec fn doc_after_edit(doc: DocView, edit: EditView, ts: u64) -> DocView {
    let ops = transform_ops_spec(doc, edit);
    if ops.len() == 0 {
        doc
    } else {
        DocView {
            rev: (doc.rev + 1) as u64,
            content: apply_ops_spec(doc.content, ops),
            log: doc.log.push(ops),
            since_flush: (doc.since_flush + 1) as usize,
            last_edit_ts: ts,
            password_hash: doc.password_hash,
        }
    }
}

/// The document after it was written out, where that was due at `now`.
pub open spec fn doc_after_flush_check(
    doc: DocView,
    now: u64,
    idle_ms: u64,
    max_ops: usize,
) -> DocView {
    if flushes(doc, FlushMode::Opportunistic, now, idle_ms, max_ops) {
        DocView { since_flush: 0, ..doc }
    } else {
        doc
    }
}

/// The remembered ids after an edit was taken in.
pub open spec fn recent_after_edit(reg: RegistryView, slug: Seq<char>, edit: EditView) -> Map<
    Seq<char>,
    Seq<u128>,
> {
    match edit.op_id {
        Some(id) => reg.recent.insert(
            slug,
            ids_after_insert(recent_of(reg, slug), RECENT_OPS_CAP, id),
        ),
        None => reg.recent,
    }
}

/// Whether an edit moves the cursor of a client that is present.
pub open spec fn moves_cursor(reg: RegistryView, slug: Seq<char>, edit: EditView) -> bool {
    edit.client_id matches Some(cid) && edit.cursor_after is Some && bucket_of(
        reg,
        slug,
    ).contains_key(cid)
}

/// The presence buckets after an edit was taken in at `now`: where the edit
/// names a client and a cursor, the client's cursor is the new one.
pub open spec fn presence_after_edit(
    reg: RegistryView,
    slug: Seq<char>,
    edit: EditView,
    now: u64,
) -> Map<Seq<char>, Map<u128, PresenceView>> {
    if edit.client_id is Some && edit.cursor_after is Some {
        if moves_cursor(reg, slug, edit) {
            presence_with(
                reg,
                slug,
                edit.client_id->0,
                with_cursor(bucket_of(reg, slug)[edit.client_id->0], edit.cursor_after->0, now),
            )
        } else {
            presence_opened(reg, slug)
        }
    } else {
        reg.presence
    }
}

/// The registry after an edit on a loaded document of `slug`.
pub open spec fn registry_after_edit(
    reg: RegistryView,
    slug: Seq<char>,
    edit: EditView,
    now: u64,
    idle_ms: u64,
    max_ops: usize,
) -> RegistryView {
    if is_duplicate(reg, slug, edit) {
        reg
    } else {
        RegistryView {
            docs: reg.docs.insert(
                slug,
                doc_after_flush_check(
                    doc_after_edit(reg.docs[slug], edit, edit_ts(edit, now)),
                    now,
                    idle_ms,
                    max_ops,
                ),
            ),
            presence: presence_after_edit(reg, slug, edit, now),
            recent: recent_after_edit(reg, slug, edit),
        }
    }
}

/// The acknowledgement of an edit.
pub open spec fn applied_msg(
    slug: Seq<char>,
    rev: u64,
    ops: Seq<Op>,
    edit: EditView,
    ts: u64,
) -> EffectView {
    EffectView::Broadcast {
        msg: ServerMsgView::Applied {
            slug,
            rev,
            ops,
            client_id: edit.client_id,
            op_id: edit.op_id,
            ts,
        },
    }
}

/// What is sent about the cursor of an edit's client: its new cursor, and
/// its presence entry as updated. Nothing where the edit moves no cursor.
pub open spec fn cursor_effects(
    reg: RegistryView,
    slug: Seq<char>,
    edit: EditView,
    now: u64,
) -> Seq<EffectView> {
    if moves_cursor(reg, slug, edit) {
        seq![
            EffectView::Broadcast {
                msg: ServerMsgView::Cursor {
                    slug,
                    client_id: edit.client_id->0,
                    cursor: edit.cursor_after->0,
                    op_id: edit.op_id,
                    ts: edit_ts(edit, now),
                },
            },
            EffectView::Broadcast {
                msg: ServerMsgView::PresenceDiff {
                    slug,
                    added: Seq::empty(),
                    updated: seq![
                        with_cursor(
                            bucket_of(reg, slug)[edit.client_id->0],
                            edit.cursor_after->0,
                            now,
                        ),
                    ],
                    removed: Seq::empty(),
                },
            },
        ]
    } else {
        Seq::empty()
    }
}

/// What the snapshot writer is asked after an edit: the new text, where
/// writing out is due.
pub open spec fn flush_effects(doc: DocView, now: u64, idle_ms: u64, max_ops: usize) -> Seq<
    EffectView,
> {
    if flushes(doc, FlushMode::Opportunistic, now, idle_ms, max_ops) {
        seq![EffectView::WriteSnapshot { text: doc.content }]
    } else {
        Seq::empty()
    }
}

/// What is to be done for an edit on a loaded document of `slug`. A
/// duplicate is acknowledged with no operations and not logged. Any other
/// edit is logged, also where rebasing leaves it empty; then the text is
/// written out where that is due; then the edit is acknowledged; then the
/// cursor of its client is announced.
pub open spec fn effects_of_edit(
    reg: RegistryView,
    slug: Seq<char>,
    edit: EditView,
    now: u64,
    idle_ms: u64,
    max_ops: usize,
) -> Seq<EffectView> {
    let ts = edit_ts(edit, now);
    let doc = reg.docs[slug];
    if is_duplicate(reg, slug, edit) {
        seq![applied_msg(slug, doc.rev, Seq::empty(), edit, ts)]
    } else {
        let after = doc_after_edit(doc, edit, ts);
        seq![
            EffectView::AppendWal {
                entry: WalEntryView {
                    version: CURRENT_WAL_VERSION,
                    ts,
                    event: DocEventView::Edit { edit: EditView { ts: Some(ts), ..edit } },
                },
                required: true,
            },
        ] + flush_effects(after, now, idle_ms, max_ops) + seq![
            applied_msg(slug, after.rev, transform_ops_spec(doc, edit), edit, ts),
        ] + cursor_effects(reg, slug, edit, now)
    }
}

/// Takes an edit into a document at the time `ts`: rebases it, and where an
/// operation is left applies them, adds a revision and notes the time.
/// Returns the rebased operations.
pub fn apply_to_doc(doc: &mut Doc, edit: &Edit, ts: u64) -> (ops: Vec<OpKind>)
    requires
        old(doc).wf(),
    ensures
        final(doc).wf(),
        final(doc).deep_view() == doc_after_edit(old(doc).deep_view(), edit.deep_view(), ts),
        ops.deep_view() == transform_ops_spec(old(doc).deep_view(), edit.deep_view()),
{
    let ops = transform_ops(doc, edit);
    if ops.len() > 0 {
        let ghost before = doc.deep_view();
        let slice = ops.as_slice();
        apply_ops(doc, slice);
        doc.log.push(clone_ops(&ops));
        // The log is a vector, so its length fits a `usize`: the revision,
        // which was one less, can grow by one.
        let held: usize = doc.log.len();
        doc.rev = doc.rev + 1;
        doc.since_flush = doc.since_flush + 1;
        doc.last_edit_ts = ts;
        proof {
            assert(doc.log.deep_view() =~= before.log.push(ops.deep_view()));
        }
    }
    ops
}

/// The effects gathered so far, with the announcement of the cursor that an
/// edit moved added to them.
fn propagate_presence_after_edit(
    state: &mut AppState,
    slug: &str,
    edit: &Edit,
    ts: u64,
    now: u64,
    effects: &mut Vec<Effect>,
)
    requires
        old(state).wf(),
        ts == edit_ts(edit.deep_view(), now) || edit.ts == Some(ts),
    ensures
        final(state).wf(),
        final(state)@.docs == old(state)@.docs,
        final(state)@.recent == old(state)@.recent,
        final(state)@.presence == presence_after_edit(old(state)@, slug@, edit.deep_view(), now),
        same_settings(*old(state), *final(state)),
        final(effects).deep_view() == old(effects).deep_view() + cursor_effects(
            old(state)@,
            slug@,
            EditView { ts: Some(ts), ..edit.deep_view() },
            now,
        ),
{
    match (edit.client_id, edit.cursor_after) {
        (Some(cid), Some(cursor_after)) => {
            match update_presence_cursor(state, slug, cid, cursor_after, now) {
                Some(updated) => {
                    push_effect(
                        effects,
                        Effect::Broadcast {
                            msg: ServerMsg::Cursor {
                                slug: slug.to_owned(),
                                client_id: cid,
                                cursor: cursor_after,
                                op_id: edit.op_id,
                                ts,
                            },
                        },
                    );
                    let mut list: Vec<PresenceState> = Vec::new();
                    list.push(updated);
                    let diff = ServerMsg::PresenceDiff {
                        slug: slug.to_owned(),
                        added: Vec::new(),
                        updated: list,
                        removed: Vec::new(),
                    };
                    proof {
                        assert(list.deep_view() =~= seq![updated.deep_view()]);
                        assert(diff->PresenceDiff_added.deep_view() =~= Seq::<
                            PresenceView,
                        >::empty());
                    }
                    push_effect(effects, Effect::Broadcast { msg: diff });
                },
                None => {},
            }
        },
        _ => {},
    }
}

/// Takes one edit of a client into the document of `slug` at the server
/// time `now`, and returns what is to be done for it, in order. The document
/// has to be loaded.
pub fn apply_edit(state: &mut AppState, slug: &str, edit: Edit, now: u64) -> (res: Result<
    Vec<Effect>,
    StateError,
>)
    requires
        old(state).wf(),
    ensures
        final(state).wf(),
        same_settings(*old(state), *final(state)),
        slug_rel_spec(slug@) matches Err(e) ==> res == Err::<Vec<Effect>, StateError>(
            StateError::InvalidSlug(e),
        ),
        slug_rel_spec(slug@) is Ok && !old(state)@.docs.contains_key(slug@) ==> res == Err::<
            Vec<Effect>,
            StateError,
        >(StateError::NotLoaded),
        res is Ok <==> slug_rel_spec(slug@) is Ok && old(state)@.docs.contains_key(slug@),
        res is Err ==> final(state)@ == old(state)@,
        res matches Ok(effects) ==> final(state)@ == registry_after_edit(
            old(state)@,
            slug@,
            edit.deep_view(),
            now,
            old(state).flush_idle_ms,
            old(state).flush_max_ops,
        ) && effects.deep_view() == effects_of_edit(
            old(state)@,
            slug@,
            edit.deep_view(),
            now,
            old(state).flush_idle_ms,
            old(state).flush_max_ops,
        ),
{
    let ts = match edit.ts {
        Some(ts) => ts,
        None => now,
    };
    match slug_to_rel_path(slug) {
        Ok(_) => {},
        Err(e) => {
            return Err(StateError::InvalidSlug(e));
        },
    }
    let ghost start = state@;
    let ghost ev = edit.deep_view();
    let mut effects: Vec<Effect> = Vec::new();
    let duplicate = match edit.op_id {
        Some(id) => op_id_seen(state, slug, &id),
        None => false,
    };
    if duplicate {
        let rev = match state.registry.doc(slug) {
            Some(doc) => doc.rev,
            None => {
                return Err(StateError::NotLoaded);
            },
        };
        let ack = ServerMsg::Applied {
            slug: slug.to_owned(),
            rev,
            ops: Vec::new(),
            client_id: edit.client_id,
            op_id: edit.op_id,
            ts,
        };
        assert(ack->Applied_ops.deep_view() =~= Seq::<Op>::empty());
        push_effect(&mut effects, Effect::Broadcast { msg: ack });
        return Ok(effects);
    }
    let mut doc = match state.registry.take_doc(slug) {
        Some(doc) => doc,
        None => {
            assert(state@.docs =~= start.docs);
            return Err(StateError::NotLoaded);
        },
    };
    let ops = apply_to_doc(&mut doc, &edit, ts);
    let rev = doc.rev;
    let due = flush_due(
        &doc,
        FlushMode::Opportunistic,
        now,
        state.flush_idle_ms,
        state.flush_max_ops,
    );
    let snapshot = if due {
        take_snapshot(&mut doc)
    } else {
        None
    };
    state.registry.put_doc(slug, doc);
    let stamped = Edit {
        base_rev: edit.base_rev,
        ops: clone_ops(&edit.ops),
        client_id: edit.client_id,
        op_id: edit.op_id,
        cursor_before: edit.cursor_before,
        cursor_after: edit.cursor_after,
        ts: Some(ts),
    };
    push_effect(
        &mut effects,
        Effect::AppendWal {
            entry: wal_entry(DocEvent::Edit { edit: stamped }, ts),
            required: true,
        },
    );
    match snapshot {
        Some(text) => {
            push_effect(&mut effects, Effect::WriteSnapshot { text });
        },
        None => {},
    }
    match edit.op_id {
        Some(id) => {
            remember_op_id(state, slug, id);
        },
        None => {},
    }
    push_effect(
        &mut effects,
        Effect::Broadcast {
            msg: ServerMsg::Applied {
                slug: slug.to_owned(),
                rev,
                ops,
                client_id: edit.client_id,
                op_id: edit.op_id,
                ts,
            },
        },
    );
    propagate_presence_after_edit(state, slug, &edit, ts, now, &mut effects);
    proof {
        assert(state@.docs =~= registry_after_edit(
            start,
            slug@,
            ev,
            now,
            state.flush_idle_ms,
            state.flush_max_ops,
        ).docs);
    }
    Ok(effects)
}

/// The document after each of `edits` was taken in, first to last; every
/// edit comes with the time at which it is taken in.
pub open spec fn doc_after_edits(doc: DocView, edits: Seq<(EditView, u64)>) -> DocView
    decreases edits.len(),
{
    if edits.len() == 0 {
        doc
    } else {
        doc_after_edit(doc_after_edits(doc, edits.drop_last()), edits.last().0, edits.last().1)
    }
}

/// Whatever edits a document takes in, its log holds one entry for every
/// revision after each of them. The log of a document in memory is a
/// vector, so its length fits a `usize`.
pub proof fn lemma_log_matches_rev(doc: DocView, edits: Seq<(EditView, u64)>)
    requires
        doc.wf(),
        doc.log.len() + edits.len() <= usize::MAX,
    ensures
        doc_after_edits(doc, edits).wf(),
        doc_after_edits(doc, edits).log.len() == doc_after_edits(doc, edits).rev,
        doc_after_edits(doc, edits).rev <= doc.rev + edits.len(),
    decreases edits.len(),
{
    if edits.len() > 0 {
        lemma_log_matches_rev(doc, edits.drop_last());
    }
}

/// The coordinator keeps the log of the document that it edits in step with
/// its revision, also where the text is written out on the way.
pub proof fn lemma_edit_keeps_log_in_step(
    reg: RegistryView,
    slug: Seq<char>,
    edit: EditView,
    now: u64,
    idle_ms: u64,
    max_ops: usize,
)
    requires
        reg.docs.contains_key(slug),
        reg.docs[slug].wf(),
        reg.docs[slug].log.len() < usize::MAX,
    ensures
        registry_after_edit(reg, slug, edit, now, idle_ms, max_ops).docs[slug].wf(),
{
}

/// An edit that carries an operation id takes effect once. When the same
/// edit comes again, the registry stays as the first time left it, so text
/// and revision do too, and the edit is acknowledged with the revision as it
/// stands and with no operations; nothing is logged for it.
pub proof fn lemma_same_edit_twice(
    reg: RegistryView,
    slug: Seq<char>,
    edit: EditView,
    first_now: u64,
    second_now: u64,
    idle_ms: u64,
    max_ops: usize,
)
    requires
        edit.op_id is Some,
    ensures
        ({
            let first = registry_after_edit(reg, slug, edit, first_now, idle_ms, max_ops);
            &&& registry_after_edit(first, slug, edit, second_now, idle_ms, max_ops) == first
            &&& effects_of_edit(first, slug, edit, second_now, idle_ms, max_ops) == seq![
                applied_msg(
                    slug,
                    first.docs[slug].rev,
                    Seq::empty(),
                    edit,
                    edit_ts(edit, second_now),
                ),
            ]
        }),
{
    let id = edit.op_id->0;
    if !is_duplicate(reg, slug, edit) {
        crate::recent::lemma_offered_id_is_remembered(recent_of(reg, slug), RECENT_OPS_CAP, id);
    }
}

/// Someone who receives what the coordinator sends about a document. What
/// `deliver` returns says whether the message was taken; nothing is known
/// of it before the call.
pub trait Subscriber {
    fn deliver(&self, msg: &ServerMsg) -> bool;
}

/// The subscribers that stay after a message was offered to each: those
/// that took it, in their order. `delivered` says of every subscriber
/// whether it did.
pub open spec fn kept<S>(list: Seq<S>, delivered: Seq<bool>) -> Seq<S>
    decreases list.len(),
{
    if list.len() == 0 || delivered.len() != list.len() {
        Seq::empty()
    } else if delivered.last() {
        kept(list.drop_last(), delivered.drop_last()).push(list.last())
    } else {
        kept(list.drop_last(), delivered.drop_last())
    }
}

/// Settles one delivery: the subscriber at `i` stays where it took the
/// message and leaves the list where it did not. Returns the place of the
/// subscriber to offer the message to next.
pub fn settle<S>(list: &mut Vec<S>, i: usize, taken: bool) -> (next: usize)
    requires
        i < old(list).len(),
    ensures
        taken ==> final(list)@ == old(list)@ && next == i + 1,
        !taken ==> final(list)@ == old(list)@.remove(i as int) && next == i,
{
    if taken {
        i + 1
    } else {
        list.remove(i);
        i
    }
}

/// Offers `msg` to every subscriber of the list, first to last, and drops
/// from the list those that do not take it.
pub fn broadcast<S: Subscriber>(list: &mut Vec<S>, msg: &ServerMsg)
    ensures
        exists|delivered: Seq<bool>|
            delivered.len() == old(list)@.len() && final(list)@ == #[trigger] kept(
                old(list)@,
                delivered,
            ),
{
    let ghost start = list@;
    let ghost mut delivered: Seq<bool> = Seq::empty();
    let mut i: usize = 0;
    while i < list.len()
        invariant
            i <= list.len(),
            delivered.len() + list.len() == start.len() + i,
            forall|j: int|
                0 <= j < list.len() - i ==> #[trigger] list@[i + j] == start[delivered.len() + j],
            list@.take(i as int) == kept(start.take(delivered.len() as int), delivered),
        decreases list.len() - i,
    {
        let ghost before = list@;
        let ghost offered = delivered;
        let ghost done = delivered.len() as int;
        let taken = list[i].deliver(msg);
        let next = settle(list, i, taken);
        proof {
            delivered = offered.push(taken);
            let seen = start.take(done + 1);
            assert(seen.drop_last() =~= start.take(done));
            assert(delivered.drop_last() =~= offered);
            assert forall|j: int| 0 <= j < list.len() - next implies #[trigger] list@[next + j]
                == start[delivered.len() + j] by {
                assert(before[i + (j + 1)] == start[done + (j + 1)]);
            }
        }
        i = next;
    }
    proof {
        assert(start.take(delivered.len() as int) =~= start);
    }
}

} // verus!
