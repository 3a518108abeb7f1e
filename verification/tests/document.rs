use collab_server::coordinator::apply_to_doc;
use collab_server::document::{
    apply_ops, apply_single_op, transform_against, transform_op, transform_ops, Doc,
};
use collab_server::types::{Edit, OpKind};

fn insert(pos: usize, text: &str) -> OpKind {
    OpKind::Insert {
        pos,
        text: text.into(),
    }
}

fn delete(pos: usize, len: usize) -> OpKind {
    OpKind::Delete { pos, len }
}

fn edit(base_rev: u64, ops: Vec<OpKind>) -> Edit {
    Edit {
        base_rev,
        ops,
        client_id: None,
        op_id: None,
        cursor_before: None,
        cursor_after: None,
        ts: None,
    }
}

#[test]
fn transform_ops_accounts_for_previous_inserts() {
    let prior = OpKind::Insert {
        pos: 0,
        text: "abc".into(),
    };
    let doc = Doc {
        rev: 1,
        content: "abc".into(),
        log: vec![vec![prior]],
        ..Default::default()
    };
    let edit = Edit {
        base_rev: 0,
        ops: vec![OpKind::Insert {
            pos: 1,
            text: "X".into(),
        }],
        client_id: None,
        op_id: None,
        cursor_before: None,
        cursor_after: None,
        ts: None,
    };

    let transformed = transform_ops(&doc, &edit);

    assert_eq!(
        transformed,
        vec![OpKind::Insert {
            pos: 4,
            text: "X".into()
        }]
    );
}

#[test]
fn apply_ops_deletes_and_inserts_characters() {
    let mut doc = Doc {
        content: "abcdef".into(),
        ..Default::default()
    };

    apply_ops(
        &mut doc,
        &[
            OpKind::Delete { pos: 2, len: 2 },
            OpKind::Insert {
                pos: 2,
                text: "XY".into(),
            },
        ],
    );

    assert_eq!(doc.content, "abXYef");
}

#[test]
fn stale_insert_past_the_end_adds_a_revision_and_leaves_the_text() {
    let mut doc = Doc {
        rev: 1,
        content: "abc".into(),
        log: vec![vec![insert(0, "abc")]],
        ..Default::default()
    };
    let ops = apply_to_doc(&mut doc, &edit(0, vec![insert(1, "X")]), 77);
    assert_eq!(ops, vec![insert(4, "X")]);
    assert_eq!(doc.rev, 2);
    assert_eq!(doc.log.len(), 2);
    assert_eq!(doc.log[1], vec![insert(4, "X")]);
    assert_eq!(doc.content, "abc");
    assert_eq!(doc.since_flush, 1);
    assert_eq!(doc.last_edit_ts, 77);
}

#[test]
fn edit_without_operations_changes_nothing() {
    let mut doc = Doc {
        content: "abc".into(),
        ..Default::default()
    };
    let ops = apply_to_doc(&mut doc, &edit(0, vec![]), 5);
    assert!(ops.is_empty());
    assert_eq!(doc.rev, 0);
    assert!(doc.log.is_empty());
    assert_eq!(doc.since_flush, 0);
    assert_eq!(doc.last_edit_ts, 0);
    assert_eq!(doc.content, "abc");
}

#[test]
fn insert_moves_only_when_strictly_behind_an_insert() {
    assert_eq!(transform_op(insert(3, "x"), &insert(3, "ab")), insert(3, "x"));
    assert_eq!(transform_op(insert(4, "x"), &insert(3, "ab")), insert(6, "x"));
    assert_eq!(transform_op(insert(2, "x"), &insert(3, "ab")), insert(2, "x"));
}

#[test]
fn insert_moves_back_over_a_delete_and_stops_at_zero() {
    assert_eq!(transform_op(insert(5, "x"), &delete(2, 2)), insert(3, "x"));
    assert_eq!(transform_op(insert(2, "x"), &delete(2, 2)), insert(2, "x"));
    assert_eq!(transform_op(insert(3, "x"), &delete(0, 9)), insert(0, "x"));
}

#[test]
fn delete_moves_also_when_at_the_same_position() {
    assert_eq!(transform_op(delete(3, 1), &insert(3, "ab")), delete(5, 1));
    assert_eq!(transform_op(delete(2, 1), &insert(3, "ab")), delete(2, 1));
    assert_eq!(transform_op(delete(3, 4), &delete(3, 2)), delete(1, 4));
    assert_eq!(transform_op(delete(1, 4), &delete(3, 2)), delete(1, 4));
    assert_eq!(transform_op(delete(1, 4), &delete(0, 7)), delete(0, 4));
}

#[test]
fn positions_count_code_points_not_bytes() {
    assert_eq!(transform_op(insert(2, "x"), &insert(0, "äöü")), insert(5, "x"));
    let mut doc = Doc {
        content: "äöü".into(),
        ..Default::default()
    };
    apply_ops(&mut doc, &[insert(1, "é"), delete(3, 1)]);
    assert_eq!(doc.content, "äéö");
}

#[test]
fn shifted_position_is_held_at_the_largest_value() {
    assert_eq!(
        transform_op(insert(usize::MAX, "x"), &insert(0, "abc")),
        insert(usize::MAX, "x")
    );
    assert_eq!(
        transform_op(delete(usize::MAX - 1, 1), &insert(0, "abc")),
        delete(usize::MAX, 1)
    );
}

#[test]
fn transform_against_keeps_one_result_per_operation() {
    let ops = vec![insert(1, "a"), delete(4, 2), insert(9, "z")];
    let prev = vec![insert(0, "xx"), delete(1, 1)];
    let out = transform_against(&ops, &prev);
    assert_eq!(out, vec![insert(2, "a"), delete(5, 2), insert(10, "z")]);
    assert_eq!(transform_against(&ops, &[]), ops);
}

#[test]
fn transform_ops_walks_the_log_from_the_base_revision() {
    let doc = Doc {
        rev: 3,
        content: "".into(),
        log: vec![
            vec![insert(0, "aaaa")],
            vec![insert(0, "bb")],
            vec![delete(0, 1)],
        ],
        ..Default::default()
    };
    assert_eq!(transform_ops(&doc, &edit(0, vec![insert(1, "x")])), vec![insert(6, "x")]);
    assert_eq!(transform_ops(&doc, &edit(1, vec![insert(1, "x")])), vec![insert(2, "x")]);
    assert_eq!(transform_ops(&doc, &edit(2, vec![insert(1, "x")])), vec![insert(0, "x")]);
    assert_eq!(transform_ops(&doc, &edit(3, vec![insert(1, "x")])), vec![insert(1, "x")]);
    assert_eq!(transform_ops(&doc, &edit(9, vec![insert(1, "x")])), vec![insert(1, "x")]);
}

#[test]
fn rebasing_in_two_steps_gives_the_same_operations() {
    let doc = Doc {
        rev: 3,
        content: "".into(),
        log: vec![
            vec![insert(0, "aaaa")],
            vec![insert(2, "bb"), delete(0, 1)],
            vec![delete(3, 1)],
        ],
        ..Default::default()
    };
    let ops = vec![insert(3, "x"), delete(5, 2)];
    let whole = transform_ops(&doc, &edit(0, ops.clone()));
    let halfway = transform_against(&ops, &doc.log[0]);
    let stepped = transform_ops(&doc, &edit(1, halfway));
    assert_eq!(whole, stepped);
}

#[test]
fn apply_ops_skips_an_insert_past_the_end_and_cuts_a_delete_short() {
    let mut doc = Doc {
        content: "abc".into(),
        ..Default::default()
    };
    apply_ops(&mut doc, &[insert(4, "X")]);
    assert_eq!(doc.content, "abc");
    apply_ops(&mut doc, &[insert(3, "X")]);
    assert_eq!(doc.content, "abcX");
    apply_ops(&mut doc, &[delete(2, 100)]);
    assert_eq!(doc.content, "ab");
    apply_ops(&mut doc, &[delete(7, 1)]);
    assert_eq!(doc.content, "ab");
    apply_ops(&mut doc, &[delete(1, usize::MAX)]);
    assert_eq!(doc.content, "a");
}

#[test]
fn apply_single_op_appends_an_insert_past_the_end() {
    let mut doc = Doc {
        content: "abc".into(),
        ..Default::default()
    };
    apply_single_op(&mut doc, &insert(9, "X"));
    assert_eq!(doc.content, "abcX");
}

#[test]
fn default_document_is_empty() {
    let doc = Doc::default();
    assert_eq!(doc.rev, 0);
    assert_eq!(doc.content, "");
    assert!(doc.log.is_empty());
    assert_eq!(doc.since_flush, 0);
    assert_eq!(doc.last_edit_ts, 0);
    assert_eq!(doc.password_hash, None);
}
