//! Loading a document: its last snapshot, then the write-ahead log replayed
//! on top of it.

use vstd::prelude::*;
use std::collections::HashSet;
use crate::coordinator::recent_of;
use crate::document::{
    apply_ops, apply_ops_spec, transform_ops, transform_ops_spec, Doc, DocView,
};
use crate::recent::{ids_after_insert, RecentOps, RECENT_OPS_CAP};
use crate::state::{same_settings, AppState, RegistryView};
use crate::storage::{slug_rel_spec, slug_to_rel_path, StateError};
use crate::text::{split_trimmed, split_trimmed_spec, trim, trim_spec};
use crate::types::{DocEvent, DocEventView, Edit, EditView, WalLine, WalLineView};

verus! {

/// Where a replay stands: the document so far, the operation ids met so far
/// in the order in which they were first met, the number of edits applied,
/// and the latest time among them.
pub struct ReplayView {
    pub doc: DocView,
    pub seen: Seq<u128>,
    pub edits: nat,
    pub last_ts: u64,
}

/// `seen` with `op_id` added at the end, where it is an id that is new.
pub open spec fn note_id(seen: Seq<u128>, op_id: Option<u128>) -> Seq<u128> {
    match op_id {
        Some(id) => if seen.contains(id) {
            seen
        } else {
            seen.push(id)
        },
        None => seen,
    }
}

/// The replay after one logged edit. An edit whose operation id was met
/// before is skipped; any other is rebased and applied and counts as one
/// revision, also where it holds no operation. `ts` is the time that the log
/// gives for it, if any.
pub open spec fn replay_edit(r: ReplayView, edit: EditView, ts: Option<u64>) -> ReplayView {
    if edit.op_id matches Some(id) && r.seen.contains(id) {
        r
    } else {
        let ops = transform_ops_spec(r.doc, edit);
        ReplayView {
            doc: DocView {
                rev: (r.doc.rev + 1) as u64,
                content: apply_ops_spec(r.doc.content, ops),
                log: r.doc.log.push(ops),
                ..r.doc
            },
            seen: note_id(r.seen, edit.op_id),
            edits: r.edits + 1,
            last_ts: match ts {
                Some(t) => if t > r.last_ts {
                    t
                } else {
                    r.last_ts
                },
                None => r.last_ts,
            },
        }
    }
}

/// The replay after one line of the log. A cursor or input-method event
/// leaves the document alone; its operation id is noted.
pub open spec fn replay_line(r: ReplayView, line: WalLineView) -> ReplayView {
    match line {
        WalLineView::V2(entry) => match entry.event {
            DocEventView::Edit { edit } => replay_edit(r, edit, Some(entry.ts)),
            DocEventView::Cursor { op_id, .. } => ReplayView { seen: note_id(r.seen, op_id), ..r },
            DocEventView::Ime { op_id, .. } => ReplayView { seen: note_id(r.seen, op_id), ..r },
        },
        WalLineView::V1(edit) => replay_edit(r, edit, edit.ts),
    }
}

/// The replay after every line of `lines`, first to last.
pub open spec fn replay_lines(r: ReplayView, lines: Seq<WalLineView>) -> ReplayView
    decreases lines.len(),
{
    if lines.len() == 0 {
        r
    } else {
        replay_line(replay_lines(r, lines.drop_last()), lines.last())
    }
}

/// The replay before its first line: the text of the snapshot, if there is
/// one, at revision zero.
pub open spec fn replay_start(snapshot: Option<Seq<char>>) -> ReplayView {
    ReplayView {
        doc: DocView {
            content: match snapshot {
                Some(text) => text,
                None => Seq::empty(),
            },
            ..DocView::empty()
        },
        seen: Seq::empty(),
        edits: 0,
        last_ts: 0,
    }
}

/// The document that a finished replay gives. Where it applied an edit, all
/// of them wait to be written out, and the time of the last edit is the
/// latest that the log gave, or `now` where it gave none. The password hash
/// is the content of the password file without the white space around it.
pub open spec fn doc_of_replay(r: ReplayView, password: Option<Seq<char>>, now: u64) -> DocView {
    DocView {
        since_flush: if r.edits > 0 {
            r.edits as usize
        } else {
            r.doc.since_flush
        },
        last_edit_ts: if r.edits > 0 {
            if r.last_ts == 0 {
                now
            } else {
                r.last_ts
            }
        } else {
            r.doc.last_edit_ts
        },
        password_hash: match password {
            Some(hash) => Some(trim_spec(hash)),
            None => r.doc.password_hash,
        },
        ..r.doc
    }
}

/// The remembered ids after each id of `seen` was offered, first to last.
pub open spec fn hydrated(ids: Seq<u128>, seen: Seq<u128>) -> Seq<u128>
    decreases seen.len(),
{
    if seen.len() == 0 {
        ids
    } else {
        ids_after_insert(hydrated(ids, seen.drop_last()), RECENT_OPS_CAP, seen.last())
    }
}

/// The registry after the document of `slug` was loaded from a snapshot, a
/// log and a password file. A document that is loaded already stays.
pub open spec fn registry_after_load(
    reg: RegistryView,
    slug: Seq<char>,
    snapshot: Option<Seq<char>>,
    lines: Seq<WalLineView>,
    password: Option<Seq<char>>,
    now: u64,
) -> RegistryView {
    if reg.docs.contains_key(slug) {
        reg
    } else {
        let r = replay_lines(replay_start(snapshot), lines);
        RegistryView {
            docs: reg.docs.insert(slug, doc_of_replay(r, password, now)),
            presence: reg.presence,
            recent: if r.seen.len() > 0 {
                reg.recent.insert(slug, hydrated(recent_of(reg, slug), r.seen))
            } else {
                reg.recent
            },
        }
    }
}

/// A replay in progress.
pub struct Replay {
    doc: Doc,
    seen_set: HashSet<u128>,
    seen: Vec<u128>,
    edits: usize,
    last_ts: u64,
}

impl View for Replay {
    type V = ReplayView;

    closed spec fn view(&self) -> ReplayView {
        ReplayView {
            doc: self.doc.deep_view(),
            seen: self.seen@,
            edits: self.edits as nat,
            last_ts: self.last_ts,
        }
    }
}

impl Replay {
    /// The parts of the replay agree with one another.
    pub closed spec fn wf(&self) -> bool {
        &&& self.doc.log@.len() == self.doc.rev
        &&& self.edits <= self.doc.rev
        &&& self.doc.since_flush == 0
        &&& forall|id: u128| self.seen_set@.contains(id) <==> self.seen@.contains(id)
    }

    /// A replay that starts from the text of a snapshot.
    pub fn new(snapshot: Option<String>) -> (res: Self)
        ensures
            res.wf(),
            res@ == replay_start(snapshot.deep_view()),
    {
        broadcast use vstd::std_specs::hash::group_hash_axioms;

        let mut doc = Doc::default();
        match snapshot {
            Some(text) => {
                doc.content = text;
            },
            None => {},
        }
        Replay { doc, seen_set: HashSet::new(), seen: Vec::new(), edits: 0, last_ts: 0 }
    }

    /// Notes an operation id.
    fn note(&mut self, op_id: Option<u128>)
        requires
            old(self).wf(),
        ensures
            final(self).wf(),
            final(self)@ == (ReplayView { seen: note_id(old(self)@.seen, op_id), ..old(self)@ }),
    {
        broadcast use vstd::std_specs::hash::group_hash_axioms;

        match op_id {
            Some(id) => {
                if self.seen_set.insert(id) {
                    self.seen.push(id);
                    proof {
                        let grown = self.seen@;
                        assert forall|other: u128| self.seen_set@.contains(other)
                            <==> grown.contains(other) by {
                            if other == id {
                                assert(grown[grown.len() - 1] == id);
                            } else if old(self).seen@.contains(other) {
                                let j = choose|j: int|
                                    0 <= j < old(self).seen@.len() && old(self).seen@[j] == other;
                                assert(grown[j] == other);
                            }
                        }
                    }
                }
            },
            None => {},
        }
    }

    /// Replays one logged edit.
    fn edit(&mut self, edit: &Edit, ts: Option<u64>)
        requires
            old(self).wf(),
        ensures
            final(self).wf(),
            final(self)@ == replay_edit(old(self)@, edit.deep_view(), ts),
    {
        broadcast use vstd::std_specs::hash::group_hash_axioms;

        match edit.op_id {
            Some(id) => {
                if self.seen_set.contains(&id) {
                    return ;
                }
            },
            None => {},
        }
        self.note(edit.op_id);
        let ghost before = self.doc.deep_view();
        let ops = transform_ops(&self.doc, edit);
        let slice = ops.as_slice();
        apply_ops(&mut self.doc, slice);
        self.doc.log.push(ops);
        // The log is a vector, so its length fits a `usize`: the revision,
        // which was one less, can grow by one.
        let held: usize = self.doc.log.len();
        self.doc.rev = self.doc.rev + 1;
        self.edits = self.edits + 1;
        match ts {
            Some(t) => {
                if t > self.last_ts {
                    self.last_ts = t;
                }
            },
            None => {},
        }
        proof {
            assert(self.doc.log.deep_view() =~= before.log.push(ops.deep_view()));
        }
    }

    /// Replays one line of the log.
    pub fn line(&mut self, line: &WalLine)
        requires
            old(self).wf(),
        ensures
            final(self).wf(),
            final(self)@ == replay_line(old(self)@, line.deep_view()),
    {
        match line {
            WalLine::V2(entry) => match &entry.event {
                DocEvent::Edit { edit } => self.edit(edit, Some(entry.ts)),
                DocEvent::Cursor { op_id, .. } => self.note(*op_id),
                DocEvent::Ime { op_id, .. } => self.note(*op_id),
            },
            WalLine::V1(edit) => self.edit(edit, edit.ts),
        }
    }

    /// Ends the replay: returns the document and the operation ids that the
    /// log held, in the order in which they were first met.
    pub fn finish(self, password: Option<String>, now: u64) -> (res: (Doc, Vec<u128>))
        requires
            self.wf(),
        ensures
            res.0.deep_view() == doc_of_replay(self@, password.deep_view(), now),
            res.0.wf(),
            res.1@ == self@.seen,
    {
        let mut doc = self.doc;
        if self.edits > 0 {
            doc.since_flush = self.edits;
            doc.last_edit_ts = if self.last_ts == 0 {
                now
            } else {
                self.last_ts
            };
        }
        match password {
            Some(hash) => {
                doc.password_hash = Some(String::from_str(trim(hash.as_str())));
            },
            None => {},
        }
        (doc, self.seen)
    }
}

/// Loads a document from the text of its snapshot, the lines of its log and
/// the content of its password file, each where the file exists. Returns the
/// document and the operation ids that the log held.
pub fn load_doc(
    snapshot: Option<String>,
    lines: &Vec<WalLine>,
    password: Option<String>,
    now: u64,
) -> (res: (Doc, Vec<u128>))
    ensures
        res.0.wf(),
        res.0.deep_view() == doc_of_replay(
            replay_lines(replay_start(snapshot.deep_view()), lines.deep_view()),
            password.deep_view(),
            now,
        ),
        res.1@ == replay_lines(replay_start(snapshot.deep_view()), lines.deep_view()).seen,
{
    let mut replay = Replay::new(snapshot);
    let ghost start = replay@;
    let mut k: usize = 0;
    while k < lines.len()
        invariant
            k <= lines.len(),
            replay.wf(),
            replay@ == replay_lines(start, lines.deep_view().take(k as int)),
        decreases lines.len() - k,
    {
        replay.line(&lines[k]);
        proof {
            let next = lines.deep_view().take(k + 1);
            assert(next.drop_last() =~= lines.deep_view().take(k as int));
        }
        k += 1;
    }
    proof {
        assert(lines.deep_view().take(k as int) =~= lines.deep_view());
    }
    replay.finish(password, now)
}

/// Offers every id of `seen` to the memory of operation ids of `slug`.
fn hydrate(state: &mut AppState, slug: &str, seen: &Vec<u128>)
    requires
        old(state).wf(),
        seen@.len() > 0,
    ensures
        final(state).wf(),
        final(state)@.docs == old(state)@.docs,
        final(state)@.presence == old(state)@.presence,
        final(state)@.recent == old(state)@.recent.insert(
            slug@,
            hydrated(recent_of(old(state)@, slug@), seen@),
        ),
        same_settings(*old(state), *final(state)),
{
    let mut recent = match state.registry.take_recent(slug) {
        Some(recent) => recent,
        None => RecentOps::new(RECENT_OPS_CAP),
    };
    let ghost ids = recent@;
    let mut k: usize = 0;
    while k < seen.len()
        invariant
            k <= seen.len(),
            recent.wf(),
            recent.capacity() == RECENT_OPS_CAP,
            recent@ == hydrated(ids, seen@.take(k as int)),
        decreases seen.len() - k,
    {
        recent.insert(seen[k]);
        proof {
            let next = seen@.take(k + 1);
            assert(next.drop_last() =~= seen@.take(k as int));
        }
        k += 1;
    }
    assert(seen@.take(k as int) =~= seen@);
    state.registry.put_recent(slug, recent);
}

/// Makes sure that the document of `slug` is loaded. Where it is not, it is
/// built from the text of its snapshot, the lines of its log and the content
/// of its password file, and the operation ids of the log are remembered.
/// An invalid slug is refused.
pub fn get_or_load_doc(
    state: &mut AppState,
    slug: &str,
    snapshot: Option<String>,
    lines: &Vec<WalLine>,
    password: Option<String>,
    now: u64,
) -> (res: Result<(), StateError>)
    requires
        old(state).wf(),
    ensures
        final(state).wf(),
        same_settings(*old(state), *final(state)),
        res == (match slug_rel_spec(slug@) {
            Ok(_) => Ok::<(), StateError>(()),
            Err(e) => Err::<(), StateError>(StateError::InvalidSlug(e)),
        }),
        res is Err ==> final(state)@ == old(state)@,
        res is Ok ==> final(state)@ == registry_after_load(
            old(state)@,
            slug@,
            snapshot.deep_view(),
            lines.deep_view(),
            password.deep_view(),
            now,
        ),
{
    match slug_to_rel_path(slug) {
        Ok(_) => {},
        Err(e) => {
            return Err(StateError::InvalidSlug(e));
        },
    }
    if state.registry.has_doc(slug) {
        return Ok(());
    }
    let (doc, seen) = load_doc(snapshot, lines, password, now);
    state.registry.put_doc(slug, doc);
    if seen.len() > 0 {
        hydrate(state, slug, &seen);
    }
    Ok(())
}

/// The lines of a log file that hold something: the pieces between line
/// feeds, each without the white space around it, the empty ones left out.
pub open spec fn wal_lines_spec(data: Seq<char>) -> Seq<Seq<char>> {
    split_trimmed_spec(data, '\n')
}

/// Parts the content of a log file into the lines that hold an entry.
pub fn wal_lines(data: &str) -> (res: Vec<String>)
    ensures
        res.deep_view() == wal_lines_spec(data@),
{
    split_trimmed(data, '\n')
}

/// The edit that a line of the log holds, if it holds one.
pub open spec fn line_edit(line: WalLineView) -> Option<EditView> {
    match line {
        WalLineView::V2(entry) => match entry.event {
            DocEventView::Edit { edit } => Some(edit),
            _ => None,
        },
        WalLineView::V1(edit) => Some(edit),
    }
}

/// The operation id that a line of the log carries, if it carries one.
pub open spec fn line_id(line: WalLineView) -> Option<u128> {
    match line {
        WalLineView::V2(entry) => match entry.event {
            DocEventView::Edit { edit } => edit.op_id,
            DocEventView::Cursor { op_id, .. } => op_id,
            DocEventView::Ime { op_id, .. } => op_id,
        },
        WalLineView::V1(edit) => edit.op_id,
    }
}

/// The time that a line of the log gives for what it holds; zero where it
/// gives none.
pub open spec fn line_ts(line: WalLineView) -> u64 {
    match line {
        WalLineView::V2(entry) => entry.ts,
        WalLineView::V1(edit) => match edit.ts {
            Some(ts) => ts,
            None => 0,
        },
    }
}

/// What a document in memory becomes while `lines` are written to its log:
/// every edit of a line is taken in, at the time of the line, and a line
/// that holds a cursor or an input-method event leaves the document alone.
pub open spec fn lived_through(doc: DocView, lines: Seq<WalLineView>) -> DocView
    decreases lines.len(),
{
    if lines.len() == 0 {
        doc
    } else {
        let before = lived_through(doc, lines.drop_last());
        match line_edit(lines.last()) {
            Some(edit) => crate::coordinator::doc_after_edit(before, edit, line_ts(lines.last())),
            None => before,
        }
    }
}

/// Every edit of `lines`, taken in at its turn, leaves at least one
/// operation after rebasing, and so adds a revision.
pub open spec fn each_adds_revision(doc: DocView, lines: Seq<WalLineView>) -> bool
    decreases lines.len(),
{
    lines.len() > 0 ==> each_adds_revision(doc, lines.drop_last()) && (line_edit(lines.last())
        matches Some(edit) ==> transform_ops_spec(
        lived_through(doc, lines.drop_last()),
        edit,
    ).len() > 0)
}

/// The operation id of every edit of `lines` is new at its turn: it is not
/// among `seen`, and no earlier line carries it.
pub open spec fn edit_ids_new(seen: Seq<u128>, lines: Seq<WalLineView>) -> bool {
    forall|i: int|
        0 <= i < lines.len() && line_edit(#[trigger] lines[i]) is Some && line_id(lines[i])
            is Some ==> !seen.contains(line_id(lines[i])->0) && forall|j: int|
            0 <= j < i ==> line_id(#[trigger] lines[j]) != line_id(lines[i])
}

/// Replay follows what happened in memory. Take a replay that stands where
/// a document in memory stood: same text, revision and log. Let the document
/// take in edits that each add a revision and whose operation ids are new,
/// with cursor and input-method events between them, while a line is logged
/// for each. Then the replay of these lines ends where the document ended:
/// same text, revision and log, and the log in step with the revision.
pub proof fn lemma_replay_follows_log(r: ReplayView, doc: DocView, lines: Seq<WalLineView>)
    requires
        r.doc.content == doc.content,
        r.doc.rev == doc.rev,
        r.doc.log == doc.log,
        doc.log.len() == doc.rev,
        doc.log.len() + lines.len() <= usize::MAX,
        each_adds_revision(doc, lines),
        edit_ids_new(r.seen, lines),
    ensures
        replay_lines(r, lines).doc.content == lived_through(doc, lines).content,
        replay_lines(r, lines).doc.rev == lived_through(doc, lines).rev,
        replay_lines(r, lines).doc.log == lived_through(doc, lines).log,
        lived_through(doc, lines).log.len() == lived_through(doc, lines).rev,
        lived_through(doc, lines).rev <= doc.rev + lines.len(),
        forall|id: u128|
            replay_lines(r, lines).seen.contains(id) ==> r.seen.contains(id) || exists|i: int|
                0 <= i < lines.len() && line_id(#[trigger] lines[i]) == Some(id),
    decreases lines.len(),
{
    if lines.len() > 0 {
        let before = lines.drop_last();
        assert(edit_ids_new(r.seen, before)) by {
            assert forall|i: int|
                0 <= i < before.len() && line_edit(#[trigger] before[i]) is Some && line_id(
                    before[i],
                ) is Some implies !r.seen.contains(line_id(before[i])->0) && forall|j: int|
                0 <= j < i ==> line_id(#[trigger] before[j]) != line_id(before[i]) by {
                assert(before[i] == lines[i]);
                assert forall|j: int| 0 <= j < i implies line_id(#[trigger] before[j]) != line_id(
                    before[i],
                ) by {
                    assert(before[j] == lines[j]);
                }
            }
        }
        lemma_replay_follows_log(r, doc, before);
        let mid = replay_lines(r, before);
        assert forall|id: u128|
            replay_lines(r, lines).seen.contains(id) implies r.seen.contains(id) || exists|i: int|
            0 <= i < lines.len() && line_id(#[trigger] lines[i]) == Some(id) by {
            if mid.seen.contains(id) && !r.seen.contains(id) {
                let i = choose|i: int|
                    0 <= i < before.len() && line_id(#[trigger] before[i]) == Some(id);
                assert(lines[i] == before[i]);
            } else if !mid.seen.contains(id) {
                assert(line_id(lines[lines.len() - 1]) == Some(id));
            }
        }
    }
}

/// A document comes back from the text it started from and its log. Let a
/// document start from nothing, or from the text of a snapshot, at revision
/// zero, and let it take in edits that each add a revision and of which no
/// operation id was met before, with cursor and input-method events between
/// them. Loading it from that text and the lines logged meanwhile gives its
/// text, its revision and its log again, with one log entry per revision.
pub proof fn lemma_replay_restores(
    snapshot: Option<Seq<char>>,
    lines: Seq<WalLineView>,
    password: Option<Seq<char>>,
    now: u64,
)
    requires
        each_adds_revision(replay_start(snapshot).doc, lines),
        edit_ids_new(Seq::empty(), lines),
        lines.len() <= usize::MAX,
    ensures
        ({
            let lived = lived_through(replay_start(snapshot).doc, lines);
            let loaded = doc_of_replay(
                replay_lines(replay_start(snapshot), lines),
                password,
                now,
            );
            &&& loaded.content == lived.content
            &&& loaded.rev == lived.rev
            &&& loaded.log == lived.log
            &&& loaded.log.len() == loaded.rev
        }),
{
    lemma_replay_follows_log(replay_start(snapshot), replay_start(snapshot).doc, lines);
}

} // verus!
