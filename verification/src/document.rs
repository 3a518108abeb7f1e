//! The in-memory model of one document: its text, its revision log, and the
//! operational transformation that rebases a stale edit onto the log.

use vstd::prelude::*;
use crate::types::{clone_ops, Edit, EditView, Op, OpKind};

verus! {

/// One document as the coordinator holds it.
#[derive(Debug)]
pub struct Doc {
    pub rev: u64,
    pub content: String,
    pub log: Vec<Vec<OpKind>>,
    pub since_flush: usize,
    pub last_edit_ts: u64,
    pub password_hash: Option<String>,
}

/// The mathematical counterpart of [`Doc`].
pub struct DocView {
    pub rev: u64,
    pub content: Seq<char>,
    pub log: Seq<Seq<Op>>,
    pub since_flush: usize,
    pub last_edit_ts: u64,
    pub password_hash: Option<Seq<char>>,
}

impl DeepView for Doc {
    type V = DocView;

    open spec fn deep_view(&self) -> DocView {
        DocView {
            rev: self.rev,
            content: self.content@,
            log: self.log.deep_view(),
            since_flush: self.since_flush,
            last_edit_ts: self.last_edit_ts,
            password_hash: self.password_hash.deep_view(),
        }
    }
}

impl DocView {
    /// The log holds exactly one entry per revision, and no more edits wait
    /// to be written out than there are revisions.
    pub open spec fn wf(self) -> bool {
        self.log.len() == self.rev && self.since_flush <= self.rev
    }

    /// The document that has never been edited.
    pub open spec fn empty() -> DocView {
        DocView {
            rev: 0,
            content: Seq::empty(),
            log: Seq::empty(),
            since_flush: 0,
            last_edit_ts: 0,
            password_hash: None,
        }
    }
}

impl Doc {
    /// The log holds exactly one entry per revision, and no more edits wait
    /// to be written out than there are revisions.
    pub open spec fn wf(&self) -> bool {
        self.deep_view().wf()
    }
}

impl Default for Doc {
    fn default() -> (doc: Self)
        ensures
            doc.deep_view() == DocView::empty(),
            doc.wf(),
    {
        let doc = Doc {
            rev: 0,
            content: String::new(),
            log: Vec::new(),
            since_flush: 0,
            last_edit_ts: 0,
            password_hash: None,
        };
        assert(doc.log.deep_view() =~= Seq::<Seq<Op>>::empty());
        doc
    }
}

/// `a + b`, held at the largest `usize` where the sum would pass it.
pub open spec fn sat_add(a: usize, b: nat) -> usize {
    if a + b > usize::MAX {
        usize::MAX
    } else {
        (a + b) as usize
    }
}

/// `a - b`, held at zero where `b` exceeds `a`.
pub open spec fn sat_sub(a: usize, b: usize) -> usize {
    if a >= b {
        (a - b) as usize
    } else {
        0
    }
}

/// Where `pos` lands after `other` has been applied first. `inclusive` says
/// whether a position equal to that of `other` moves too: it does for a
/// delete, it does not for an insert.
pub open spec fn shifted_pos(pos: usize, inclusive: bool, other: Op) -> usize {
    match other {
        Op::Insert { pos: o, text } => if pos > o || (inclusive && pos == o) {
            sat_add(pos, text.len())
        } else {
            pos
        },
        Op::Delete { pos: o, len } => if pos > o || (inclusive && pos == o) {
            sat_sub(pos, len)
        } else {
            pos
        },
    }
}

/// `op` rebased over one operation `other` that was applied before it. Only
/// the position moves; a delete keeps its length even where the other delete
/// overlaps it.
pub open spec fn transform_op_spec(op: Op, other: Op) -> Op {
    match op {
        Op::Insert { pos, text } => Op::Insert { pos: shifted_pos(pos, false, other), text },
        Op::Delete { pos, len } => Op::Delete { pos: shifted_pos(pos, true, other), len },
    }
}

/// `op` rebased over each operation of `priors`, first to last.
pub open spec fn rebase_op(op: Op, priors: Seq<Op>) -> Op
    decreases priors.len(),
{
    if priors.len() == 0 {
        op
    } else {
        transform_op_spec(rebase_op(op, priors.drop_last()), priors.last())
    }
}

/// Every operation of `ops` rebased over `priors`; one result per operation.
pub open spec fn transform_against_spec(ops: Seq<Op>, priors: Seq<Op>) -> Seq<Op> {
    Seq::new(ops.len(), |j: int| rebase_op(ops[j], priors))
}

/// `op` rebased over each entry of `log`, first to last.
pub open spec fn rebase_over_log(op: Op, log: Seq<Seq<Op>>) -> Op
    decreases log.len(),
{
    if log.len() == 0 {
        op
    } else {
        rebase_op(rebase_over_log(op, log.drop_last()), log.last())
    }
}

/// Every operation of `ops` rebased over each entry of `log`.
pub open spec fn transform_over_log(ops: Seq<Op>, log: Seq<Seq<Op>>) -> Seq<Op> {
    Seq::new(ops.len(), |j: int| rebase_over_log(ops[j], log))
}

/// The part of the log that an edit based on `base_rev` has not seen. Entries
/// that the log does not hold are left out.
pub open spec fn unseen_log(doc: DocView, base_rev: u64) -> Seq<Seq<Op>> {
    let to = if doc.rev <= doc.log.len() {
        doc.rev as int
    } else {
        doc.log.len() as int
    };
    let from = if base_rev <= to {
        base_rev as int
    } else {
        to
    };
    doc.log.subrange(from, to)
}

/// The operations of `edit` as they apply to the current revision of `doc`.
pub open spec fn transform_ops_spec(doc: DocView, edit: EditView) -> Seq<Op> {
    if edit.base_rev >= doc.rev {
        edit.ops
    } else {
        transform_over_log(edit.ops, unseen_log(doc, edit.base_rev))
    }
}

/// The text after one operation, the position held inside the text: an
/// insert past the end appends, a delete stops at the end.
pub open spec fn splice_spec(content: Seq<char>, op: Op) -> Seq<char> {
    match op {
        Op::Insert { pos, text } => {
            let p = if pos <= content.len() {
                pos as int
            } else {
                content.len() as int
            };
            content.subrange(0, p) + text + content.subrange(p, content.len() as int)
        },
        Op::Delete { pos, len } => {
            let p = if pos <= content.len() {
                pos as int
            } else {
                content.len() as int
            };
            let e = if pos + len <= content.len() {
                pos + len
            } else {
                content.len() as int
            };
            content.subrange(0, p) + content.subrange(e, content.len() as int)
        },
    }
}

/// The text after one operation of an edit: an insert past the end is
/// skipped, anything else is spliced in.
pub open spec fn apply_op_spec(content: Seq<char>, op: Op) -> Seq<char> {
    match op {
        Op::Insert { pos, text } => if pos > content.len() {
            content
        } else {
            splice_spec(content, op)
        },
        Op::Delete { .. } => splice_spec(content, op),
    }
}

/// The text after each operation of `ops`, first to last.
pub open spec fn apply_ops_spec(content: Seq<char>, ops: Seq<Op>) -> Seq<char>
    decreases ops.len(),
{
    if ops.len() == 0 {
        content
    } else {
        apply_op_spec(apply_ops_spec(content, ops.drop_last()), ops.last())
    }
}

/// Rebases `op` over one operation that was applied before it.
pub fn transform_op(op: OpKind, other: &OpKind) -> (res: OpKind)
    ensures
        res.deep_view() == transform_op_spec(op.deep_view(), other.deep_view()),
{
    match op {
        OpKind::Insert { pos, text } => {
            let moved = match other {
                OpKind::Insert { pos: o, text: t } => if pos > *o {
                    pos.saturating_add(t.as_str().unicode_len())
                } else {
                    pos
                },
                OpKind::Delete { pos: o, len } => if pos > *o {
                    pos.saturating_sub(*len)
                } else {
                    pos
                },
            };
            OpKind::Insert { pos: moved, text }
        },
        OpKind::Delete { pos, len } => {
            let moved = match other {
                OpKind::Insert { pos: o, text: t } => if pos >= *o {
                    pos.saturating_add(t.as_str().unicode_len())
                } else {
                    pos
                },
                OpKind::Delete { pos: o, len: l } => if pos >= *o {
                    pos.saturating_sub(*l)
                } else {
                    pos
                },
            };
            OpKind::Delete { pos: moved, len }
        },
    }
}

/// Rebases one operation over a whole list of earlier operations.
fn rebase(op: OpKind, priors: &[OpKind]) -> (res: OpKind)
    ensures
        res.deep_view() == rebase_op(op.deep_view(), priors.deep_view()),
{
    let ghost start = op.deep_view();
    let mut cur = op;
    let mut k: usize = 0;
    while k < priors.len()
        invariant
            k <= priors.len(),
            cur.deep_view() == rebase_op(start, priors.deep_view().take(k as int)),
        decreases priors.len() - k,
    {
        cur = transform_op(cur, &priors[k]);
        proof {
            let next = priors.deep_view().take(k + 1);
            assert(next.drop_last() =~= priors.deep_view().take(k as int));
        }
        k += 1;
    }
    assert(priors.deep_view().take(k as int) =~= priors.deep_view());
    cur
}

/// Rebases every operation of `ops` over the list `prev` of operations that
/// were applied before them.
pub fn transform_against(ops: &[OpKind], prev: &[OpKind]) -> (res: Vec<OpKind>)
    ensures
        res.deep_view() == transform_against_spec(ops.deep_view(), prev.deep_view()),
{
    let mut res: Vec<OpKind> = Vec::new();
    let mut j: usize = 0;
    while j < ops.len()
        invariant
            j <= ops.len(),
            res.len() == j,
            forall|i: int|
                0 <= i < j ==> (#[trigger] res[i]).deep_view() == rebase_op(
                    ops[i].deep_view(),
                    prev.deep_view(),
                ),
        decreases ops.len() - j,
    {
        let moved = rebase(ops[j].clone(), prev);
        res.push(moved);
        j += 1;
    }
    res
}

/// Rebases the operations of `edit` onto the current revision of `doc`: over
/// every log entry from the edit's base revision on. An edit that is not
/// behind the document keeps its operations.
pub fn transform_ops(doc: &Doc, edit: &Edit) -> (res: Vec<OpKind>)
    ensures
        res.deep_view() == transform_ops_spec(doc.deep_view(), edit.deep_view()),
{
    let mut ops = clone_ops(&edit.ops);
    if edit.base_rev >= doc.rev {
        return ops;
    }
    let held: u64 = doc.log.len() as u64;
    let to: u64 = if doc.rev <= held {
        doc.rev
    } else {
        held
    };
    let from: u64 = if edit.base_rev <= to {
        edit.base_rev
    } else {
        to
    };
    let ghost log = doc.log.deep_view();
    let ghost start = edit.ops.deep_view();
    let mut i: u64 = from;
    while i < to
        invariant
            from <= i <= to <= doc.log.len(),
            log == doc.log.deep_view(),
            ops.deep_view() == transform_over_log(start, log.subrange(from as int, i as int)),
        decreases to - i,
    {
        let next = transform_against(ops.as_slice(), doc.log[i as usize].as_slice());
        proof {
            let seen = log.subrange(from as int, i as int);
            let more = log.subrange(from as int, i + 1);
            assert(more.drop_last() =~= seen);
        }
        ops = next;
        i += 1;
    }
    ops
}

/// Splices one operation into the text of `doc`. The position is held inside
/// the text: an insert past the end appends, a delete stops at the end.
pub fn apply_single_op(doc: &mut Doc, op: &OpKind)
    ensures
        final(doc).content@ == splice_spec(old(doc).content@, op.deep_view()),
        final(doc).rev == old(doc).rev,
        final(doc).log == old(doc).log,
        final(doc).since_flush == old(doc).since_flush,
        final(doc).last_edit_ts == old(doc).last_edit_ts,
        final(doc).password_hash == old(doc).password_hash,
{
    let n: usize = doc.content.as_str().unicode_len();
    match op {
        OpKind::Insert { pos, text } => {
            let p: usize = if *pos <= n {
                *pos
            } else {
                n
            };
            let mut s = String::from_str(doc.content.as_str().substring_char(0, p));
            s.append(text.as_str());
            s.append(doc.content.as_str().substring_char(p, n));
            doc.content = s;
        },
        OpKind::Delete { pos, len } => {
            let p: usize = if *pos <= n {
                *pos
            } else {
                n
            };
            let e: usize = if *len <= n - p {
                p + *len
            } else {
                n
            };
            let mut s = String::from_str(doc.content.as_str().substring_char(0, p));
            s.append(doc.content.as_str().substring_char(e, n));
            doc.content = s;
        },
    }
}

/// Applies the operations of an edit to the text of `doc`, first to last. An
/// insert whose position lies past the end of the text is skipped.
pub fn apply_ops(doc: &mut Doc, ops: &[OpKind])
    ensures
        final(doc).content@ == apply_ops_spec(old(doc).content@, ops.deep_view()),
        final(doc).rev == old(doc).rev,
        final(doc).log == old(doc).log,
        final(doc).since_flush == old(doc).since_flush,
        final(doc).last_edit_ts == old(doc).last_edit_ts,
        final(doc).password_hash == old(doc).password_hash,
{
    let mut k: usize = 0;
    while k < ops.len()
        invariant
            k <= ops.len(),
            doc.content@ == apply_ops_spec(old(doc).content@, ops.deep_view().take(k as int)),
            doc.rev == old(doc).rev,
            doc.log == old(doc).log,
            doc.since_flush == old(doc).since_flush,
            doc.last_edit_ts == old(doc).last_edit_ts,
            doc.password_hash == old(doc).password_hash,
        decreases ops.len() - k,
    {
        let skip = match &ops[k] {
            OpKind::Insert { pos, .. } => *pos > doc.content.as_str().unicode_len(),
            OpKind::Delete { .. } => false,
        };
        if !skip {
            apply_single_op(doc, &ops[k]);
        }
        proof {
            let next = ops.deep_view().take(k + 1);
            assert(next.drop_last() =~= ops.deep_view().take(k as int));
        }
        k += 1;
    }
    assert(ops.deep_view().take(k as int) =~= ops.deep_view());
}

/// Rebasing over a log in one go is rebasing over its first part and then
/// over the rest.
pub proof fn lemma_rebase_in_steps(op: Op, first: Seq<Seq<Op>>, rest: Seq<Seq<Op>>)
    ensures
        rebase_over_log(op, first + rest) == rebase_over_log(rebase_over_log(op, first), rest),
    decreases rest.len(),
{
    if rest.len() > 0 {
        lemma_rebase_in_steps(op, first, rest.drop_last());
        assert((first + rest).drop_last() =~= first + rest.drop_last());
    }
}

/// An edit that is behind the document may be brought up to date in steps:
/// rebased onto any revision between its base and the document's, and from
/// there onto the document's. The operations that come out, and so the text
/// after they are applied, are those of rebasing it in one go.
pub proof fn lemma_transform_via_intermediate(doc: DocView, edit: EditView, mid: u64)
    requires
        doc.wf(),
        edit.base_rev <= mid <= doc.rev,
        edit.base_rev < doc.rev,
    ensures
        ({
            let halfway = EditView {
                base_rev: mid,
                ops: transform_over_log(
                    edit.ops,
                    doc.log.subrange(edit.base_rev as int, mid as int),
                ),
                ..edit
            };
            &&& transform_ops_spec(doc, halfway) == transform_ops_spec(doc, edit)
            &&& apply_ops_spec(doc.content, transform_ops_spec(doc, halfway)) == apply_ops_spec(
                doc.content,
                transform_ops_spec(doc, edit),
            )
        }),
{
    let first = doc.log.subrange(edit.base_rev as int, mid as int);
    let rest = doc.log.subrange(mid as int, doc.rev as int);
    assert(unseen_log(doc, edit.base_rev) =~= first + rest);
    assert forall|j: int| 0 <= j < edit.ops.len() implies rebase_over_log(
        edit.ops[j],
        first + rest,
    ) == rebase_over_log(rebase_over_log(edit.ops[j], first), rest) by {
        lemma_rebase_in_steps(edit.ops[j], first, rest);
    }
}

} // verus!
