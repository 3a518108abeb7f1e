use collab_server::coordinator::{
    apply_edit, broadcast, op_id_seen, remember_op_id, settle, Effect, Subscriber,
};
use collab_server::presence::register_presence;
use collab_server::recent::{RecentOps, RECENT_OPS_CAP};
use collab_server::replay::{get_or_load_doc, load_doc, wal_lines};
use collab_server::state::{now_millis, AppState};
use collab_server::storage::{wal_entry, SlugError, StateError};
use collab_server::types::{
    CursorState, DocEvent, Edit, ImeEvent, OpKind, ServerMsg, TextRange, WalLine,
};
use std::cell::Cell;
use uuid::Uuid;

fn mk_state() -> AppState {
    AppState::new("wal".to_string(), "snapshots".to_string(), 10_000, 1_000_000, true, Vec::new())
}

fn new_id() -> u128 {
    Uuid::new_v4().as_u128()
}

fn insert_edit(base_rev: u64, pos: usize, text: &str, op_id: Option<u128>) -> Edit {
    Edit {
        base_rev,
        ops: vec![OpKind::Insert {
            pos,
            text: text.into(),
        }],
        client_id: None,
        op_id,
        cursor_before: None,
        cursor_after: None,
        ts: None,
    }
}

fn load_empty(state: &mut AppState, slug: &str) {
    get_or_load_doc(state, slug, None, &Vec::new(), None, 1).unwrap();
}

fn v2(edit: Edit, ts: u64) -> WalLine {
    WalLine::V2(wal_entry(DocEvent::Edit { edit }, ts))
}

#[test]
fn dedup_same_op_id_applies_once() {
    let mut state = mk_state();
    let slug = "t1";
    load_empty(&mut state, slug);

    let op_id = new_id();
    let e = insert_edit(0, 0, "a", Some(op_id));
    let first = apply_edit(&mut state, slug, e.clone(), 100).unwrap();
    assert_eq!(state.registry.doc(slug).unwrap().rev, 1);
    assert_eq!(state.registry.doc(slug).unwrap().content, "a");
    assert_eq!(first.len(), 2);
    assert!(matches!(first[0], Effect::AppendWal { required: true, .. }));

    let second = apply_edit(&mut state, slug, e.clone(), 200).unwrap();
    assert_eq!(state.registry.doc(slug).unwrap().rev, 1);
    assert_eq!(state.registry.doc(slug).unwrap().content, "a");
    assert_eq!(
        second,
        vec![Effect::Broadcast {
            msg: ServerMsg::Applied {
                slug: slug.to_string(),
                rev: 1,
                ops: vec![],
                client_id: None,
                op_id: Some(op_id),
                ts: 200,
            }
        }]
    );

    let e2 = insert_edit(1, 1, "b", Some(new_id()));
    apply_edit(&mut state, slug, e2, 300).unwrap();
    assert_eq!(state.registry.doc(slug).unwrap().rev, 2);
    assert_eq!(state.registry.doc(slug).unwrap().content, "ab");
}

#[test]
fn load_wal_skips_duplicate_op_ids() {
    let mut state = mk_state();
    let slug = "t2";
    let id = new_id();
    let e1 = insert_edit(0, 0, "x", Some(id));
    let e2 = insert_edit(1, 1, "y", Some(new_id()));
    let lines = vec![
        WalLine::V1(e1.clone()),
        WalLine::V1(e1.clone()),
        WalLine::V1(e2.clone()),
    ];

    get_or_load_doc(&mut state, slug, None, &lines, None, 1).unwrap();
    let doc = state.registry.doc(slug).unwrap();
    assert_eq!(doc.rev, 2);
    assert_eq!(doc.content, "xy");
}

#[test]
fn wal_load_marks_pending_flush_and_last_edit_ts() {
    let mut state = mk_state();
    let slug = "pending";
    let lines = vec![
        v2(insert_edit(0, 0, "a", Some(new_id())), 111),
        v2(insert_edit(0, 0, "b", Some(new_id())), 222),
    ];

    get_or_load_doc(&mut state, slug, None, &lines, None, 5).unwrap();
    let d = state.registry.doc(slug).unwrap();
    assert_eq!(d.since_flush, 2);
    assert!(d.last_edit_ts >= 222);
    assert_eq!(d.last_edit_ts, 222);
}

#[test]
fn wal_v2_events_preserve_content_and_track_ids() {
    let mut state = mk_state();
    let slug = "timeline";
    let edit_id = new_id();
    let cursor_id = new_id();
    let ime_id = new_id();
    let lines = vec![
        v2(insert_edit(0, 0, "log", Some(edit_id)), 1000),
        WalLine::V2(wal_entry(
            DocEvent::Cursor {
                client_id: new_id(),
                op_id: Some(cursor_id),
                cursor: CursorState {
                    position: 1,
                    anchor: None,
                    selection_direction: None,
                },
            },
            1234,
        )),
        WalLine::V2(wal_entry(
            DocEvent::Ime {
                client_id: new_id(),
                op_id: Some(ime_id),
                ime: ImeEvent::Start {
                    range: TextRange { start: 1, end: 1 },
                },
            },
            5678,
        )),
    ];

    get_or_load_doc(&mut state, slug, None, &lines, None, 1).unwrap();
    let doc = state.registry.doc(slug).unwrap();
    assert_eq!(doc.rev, 1);
    assert_eq!(doc.content, "log");
    assert_eq!(doc.last_edit_ts, 1000);

    assert!(op_id_seen(&state, slug, &cursor_id));
    assert!(op_id_seen(&state, slug, &ime_id));
    assert!(op_id_seen(&state, slug, &edit_id));
    assert!(!op_id_seen(&state, slug, &new_id()));
    assert!(!op_id_seen(&state, "other", &edit_id));
}

#[test]
fn mixed_wal_replays_both_formats_in_order() {
    let legacy = insert_edit(0, 0, "a", None);
    let current = insert_edit(1, 1, "b", Some(new_id()));
    let lines = vec![WalLine::V1(legacy), v2(current, 4242)];
    let (doc, seen) = load_doc(None, &lines, None, 99);
    assert_eq!(doc.rev, 2);
    assert_eq!(doc.content, "ab");
    assert_eq!(doc.log.len(), 2);
    assert_eq!(doc.since_flush, 2);
    assert_eq!(doc.last_edit_ts, 4242);
    assert_eq!(seen.len(), 1);
}

#[test]
fn replay_starts_from_the_snapshot_and_reads_the_password() {
    let (doc, seen) = load_doc(Some("base".into()), &Vec::new(), Some(" abc123 \n".into()), 9);
    assert_eq!(doc.content, "base");
    assert_eq!(doc.rev, 0);
    assert_eq!(doc.since_flush, 0);
    assert_eq!(doc.last_edit_ts, 0);
    assert_eq!(doc.password_hash.as_deref(), Some("abc123"));
    assert!(seen.is_empty());

    let mut legacy = insert_edit(0, 4, "!", None);
    let (doc, _) = load_doc(Some("base".into()), &vec![WalLine::V1(legacy.clone())], None, 77);
    assert_eq!(doc.content, "base!");
    assert_eq!(doc.rev, 1);
    assert_eq!(doc.since_flush, 1);
    assert_eq!(doc.last_edit_ts, 77);
    legacy.ts = Some(31);
    let (doc, _) = load_doc(None, &vec![WalLine::V1(legacy)], None, 77);
    assert_eq!(doc.content, "");
    assert_eq!(doc.rev, 1);
    assert_eq!(doc.last_edit_ts, 31);
}

#[test]
fn replay_counts_an_edit_without_operations_as_a_revision() {
    let empty = Edit {
        base_rev: 0,
        ops: vec![],
        client_id: None,
        op_id: None,
        cursor_before: None,
        cursor_after: None,
        ts: None,
    };
    let (doc, _) = load_doc(None, &vec![v2(empty, 5)], None, 1);
    assert_eq!(doc.rev, 1);
    assert_eq!(doc.log, vec![Vec::<OpKind>::new()]);
    assert_eq!(doc.content, "");
}

#[test]
fn log_replayed_after_edits_gives_the_same_document() {
    let mut state = mk_state();
    let slug = "round";
    load_empty(&mut state, slug);
    let edits = vec![
        insert_edit(0, 0, "hello", Some(new_id())),
        insert_edit(0, 0, ">> ", Some(new_id())),
        insert_edit(1, 5, " world", None),
        Edit {
            base_rev: 3,
            ops: vec![OpKind::Delete { pos: 0, len: 1 }],
            client_id: None,
            op_id: Some(new_id()),
            cursor_before: None,
            cursor_after: None,
            ts: Some(5),
        },
    ];
    let mut lines = Vec::new();
    for (i, edit) in edits.into_iter().enumerate() {
        let effects = apply_edit(&mut state, slug, edit, 10 + i as u64).unwrap();
        for effect in effects {
            if let Effect::AppendWal { entry, .. } = effect {
                lines.push(WalLine::V2(entry));
            }
        }
    }
    let lived = state.registry.doc(slug).unwrap();
    assert_eq!(lived.content, "> hello world");
    let (replayed, _) = load_doc(None, &lines, None, 1);
    assert_eq!(replayed.content, lived.content);
    assert_eq!(replayed.rev, lived.rev);
    assert_eq!(replayed.log, lived.log);
    assert_eq!(replayed.log.len() as u64, replayed.rev);
}

#[test]
fn loading_twice_keeps_the_first_document() {
    let mut state = mk_state();
    let lines = vec![v2(insert_edit(0, 0, "a", None), 5)];
    get_or_load_doc(&mut state, "d", None, &lines, None, 1).unwrap();
    get_or_load_doc(&mut state, "d", Some("other".into()), &Vec::new(), None, 1).unwrap();
    assert_eq!(state.registry.doc("d").unwrap().content, "a");
    assert_eq!(
        get_or_load_doc(&mut state, "", None, &Vec::new(), None, 1),
        Err(StateError::InvalidSlug(SlugError::Empty))
    );
}

#[test]
fn wal_lines_are_trimmed_and_empty_ones_dropped() {
    assert_eq!(
        wal_lines("{\"a\":1}\n\n  {\"b\":2}  \r\n\t\n{\"c\":3}"),
        vec!["{\"a\":1}", "{\"b\":2}", "{\"c\":3}"]
    );
    assert!(wal_lines("").is_empty());
    assert!(wal_lines("\n \n").is_empty());
    assert_eq!(wal_lines("x\n"), vec!["x"]);
}

#[test]
fn apply_edit_needs_a_loaded_document() {
    let mut state = mk_state();
    assert_eq!(
        apply_edit(&mut state, "nope", insert_edit(0, 0, "a", None), 1),
        Err(StateError::NotLoaded)
    );
    assert_eq!(
        apply_edit(&mut state, "a/../b", insert_edit(0, 0, "a", None), 1),
        Err(StateError::InvalidSlug(SlugError::InvalidSegment))
    );
}

#[test]
fn apply_edit_logs_acknowledges_and_writes_out_in_order() {
    let mut state = mk_state();
    state.flush_max_ops = 1;
    let slug = "dir/sub/doc";
    load_empty(&mut state, slug);
    let op_id = new_id();
    let effects = apply_edit(&mut state, slug, insert_edit(0, 0, "nested", Some(op_id)), 42).unwrap();
    let mut stamped = insert_edit(0, 0, "nested", Some(op_id));
    stamped.ts = Some(42);
    assert_eq!(
        effects,
        vec![
            Effect::AppendWal {
                entry: wal_entry(DocEvent::Edit { edit: stamped }, 42),
                required: true,
            },
            Effect::WriteSnapshot {
                text: "nested".to_string()
            },
            Effect::Broadcast {
                msg: ServerMsg::Applied {
                    slug: slug.to_string(),
                    rev: 1,
                    ops: vec![OpKind::Insert {
                        pos: 0,
                        text: "nested".into()
                    }],
                    client_id: None,
                    op_id: Some(op_id),
                    ts: 42,
                }
            },
        ]
    );
    let doc = state.registry.doc(slug).unwrap();
    assert_eq!(doc.since_flush, 0);
    assert_eq!(doc.last_edit_ts, 42);
    assert_eq!(doc.log.len() as u64, doc.rev);
}

#[test]
fn edit_that_rebases_to_nothing_is_logged_but_adds_no_revision() {
    let mut state = mk_state();
    let slug = "noop";
    load_empty(&mut state, slug);
    let empty = Edit {
        base_rev: 0,
        ops: vec![],
        client_id: None,
        op_id: None,
        cursor_before: None,
        cursor_after: None,
        ts: Some(7),
    };
    let effects = apply_edit(&mut state, slug, empty, 99).unwrap();
    assert_eq!(effects.len(), 2);
    assert!(matches!(effects[0], Effect::AppendWal { required: true, .. }));
    assert_eq!(
        effects[1],
        Effect::Broadcast {
            msg: ServerMsg::Applied {
                slug: slug.to_string(),
                rev: 0,
                ops: vec![],
                client_id: None,
                op_id: None,
                ts: 7,
            }
        }
    );
    let doc = state.registry.doc(slug).unwrap();
    assert_eq!(doc.rev, 0);
    assert!(doc.log.is_empty());
}

#[test]
fn edit_with_cursor_announces_the_cursor_of_a_present_client() {
    let mut state = mk_state();
    let slug = "cur";
    load_empty(&mut state, slug);
    let client = new_id();
    register_presence(&mut state, slug, client, Some("Ann".into()), None, 1);
    let cursor = CursorState {
        position: 2,
        anchor: None,
        selection_direction: None,
    };
    let mut edit = insert_edit(0, 0, "ab", None);
    edit.client_id = Some(client);
    edit.cursor_after = Some(cursor);
    let effects = apply_edit(&mut state, slug, edit.clone(), 500).unwrap();
    assert_eq!(effects.len(), 4);
    assert_eq!(
        effects[2],
        Effect::Broadcast {
            msg: ServerMsg::Cursor {
                slug: slug.to_string(),
                client_id: client,
                cursor,
                op_id: None,
                ts: 500,
            }
        }
    );
    match &effects[3] {
        Effect::Broadcast {
            msg: ServerMsg::PresenceDiff { added, updated, removed, .. },
        } => {
            assert!(added.is_empty() && removed.is_empty());
            assert_eq!(updated.len(), 1);
            assert_eq!(updated[0].cursor, Some(cursor));
            assert_eq!(updated[0].last_seen, 500);
            assert_eq!(updated[0].label.as_deref(), Some("Ann"));
        }
        other => panic!("unexpected effect {:?}", other),
    }
    edit.client_id = Some(new_id());
    edit.base_rev = 1;
    let effects = apply_edit(&mut state, slug, edit, 600).unwrap();
    assert_eq!(effects.len(), 2);
}

#[test]
fn log_length_follows_the_revision_through_many_edits() {
    let mut state = mk_state();
    let slug = "many";
    load_empty(&mut state, slug);
    for i in 0..50u64 {
        let base = if i % 3 == 0 { 0 } else { i };
        let edit = if i % 5 == 4 {
            Edit {
                base_rev: base,
                ops: vec![],
                client_id: None,
                op_id: None,
                cursor_before: None,
                cursor_after: None,
                ts: None,
            }
        } else {
            insert_edit(base, (i % 4) as usize, "z", Some(new_id()))
        };
        apply_edit(&mut state, slug, edit, i).unwrap();
        let doc = state.registry.doc(slug).unwrap();
        assert_eq!(doc.log.len() as u64, doc.rev);
    }
    assert_eq!(state.registry.doc(slug).unwrap().rev, 40);
}

#[test]
fn recent_ops_forget_the_oldest_first() {
    let mut ring = RecentOps::new(3);
    assert!(!ring.contains(&1));
    assert!(ring.insert(1));
    assert!(!ring.insert(1));
    assert!(ring.insert(2));
    assert!(ring.insert(3));
    assert!(ring.contains(&1) && ring.contains(&2) && ring.contains(&3));
    assert!(ring.insert(4));
    assert!(!ring.contains(&1));
    assert!(ring.contains(&2) && ring.contains(&3) && ring.contains(&4));
    assert!(ring.insert(1));
    assert!(!ring.contains(&2));
    let mut none = RecentOps::new(0);
    assert!(none.insert(9));
    assert!(!none.contains(&9));
    assert!(none.insert(9));
}

#[test]
fn coordinator_remembers_the_newest_4096_ids_of_a_slug() {
    assert_eq!(RECENT_OPS_CAP, 4096);
    let mut state = mk_state();
    for id in 0..4096u128 {
        assert!(remember_op_id(&mut state, "s", id));
    }
    assert!(op_id_seen(&state, "s", &0));
    assert!(!remember_op_id(&mut state, "s", 0));
    assert!(remember_op_id(&mut state, "s", 4096));
    assert!(!op_id_seen(&state, "s", &0));
    assert!(op_id_seen(&state, "s", &1));
    assert!(op_id_seen(&state, "s", &4096));
    assert!(!op_id_seen(&state, "t", &1));
}

struct Probe {
    name: u8,
    open: bool,
    got: Cell<u32>,
}

impl Subscriber for Probe {
    fn deliver(&self, _msg: &ServerMsg) -> bool {
        if self.open {
            self.got.set(self.got.get() + 1);
        }
        self.open
    }
}

#[test]
fn broadcast_drops_the_subscribers_that_fail() {
    let mk = |name: u8, open: bool| Probe {
        name,
        open,
        got: Cell::new(0),
    };
    let mut list = vec![mk(1, true), mk(2, false), mk(3, false), mk(4, true), mk(5, false)];
    let msg = ServerMsg::Pong { ts: None };
    broadcast(&mut list, &msg);
    assert_eq!(list.iter().map(|p| p.name).collect::<Vec<_>>(), vec![1, 4]);
    assert!(list.iter().all(|p| p.got.get() == 1));
    broadcast(&mut list, &msg);
    assert_eq!(list.len(), 2);
    assert!(list.iter().all(|p| p.got.get() == 2));
    let mut nobody: Vec<Probe> = Vec::new();
    broadcast(&mut nobody, &msg);
    assert!(nobody.is_empty());
    let mut three = vec![10, 20, 30];
    assert_eq!(settle(&mut three, 1, true), 2);
    assert_eq!(three, vec![10, 20, 30]);
    assert_eq!(settle(&mut three, 1, false), 1);
    assert_eq!(three, vec![10, 30]);
}

#[test]
fn clock_reads_a_time_after_2020() {
    let now = now_millis();
    assert!(now > 1_577_836_800_000);
    assert!(now_millis() >= now);
}

#[test]
fn document_from_a_snapshot_comes_back_from_snapshot_and_log() {
    let mut state = mk_state();
    let slug = "kept";
    get_or_load_doc(&mut state, slug, Some("base".into()), &Vec::new(), None, 1).unwrap();
    let mut lines = Vec::new();
    let mut take = |state: &mut AppState, edit: Edit, now: u64, lines: &mut Vec<WalLine>| {
        for effect in apply_edit(state, slug, edit, now).unwrap() {
            if let Effect::AppendWal { entry, .. } = effect {
                lines.push(WalLine::V2(entry));
            }
        }
    };
    take(&mut state, insert_edit(0, 4, "!", Some(new_id())), 10, &mut lines);
    lines.push(WalLine::V2(wal_entry(
        DocEvent::Cursor {
            client_id: new_id(),
            op_id: Some(new_id()),
            cursor: CursorState {
                position: 2,
                anchor: None,
                selection_direction: None,
            },
        },
        11,
    )));
    take(&mut state, insert_edit(0, 0, "> ", Some(new_id())), 12, &mut lines);
    lines.push(WalLine::V2(wal_entry(
        DocEvent::Ime {
            client_id: new_id(),
            op_id: None,
            ime: ImeEvent::Cancel {
                range: TextRange { start: 0, end: 0 },
            },
        },
        13,
    )));
    take(&mut state, insert_edit(1, 5, "?", None), 14, &mut lines);
    assert_eq!(lines.len(), 5);
    let lived = state.registry.doc(slug).unwrap();
    assert_eq!(lived.content, "> base!?");
    assert_eq!(lived.rev, 3);

    let (loaded, seen) = load_doc(Some("base".into()), &lines, None, 99);
    assert_eq!(loaded.content, lived.content);
    assert_eq!(loaded.rev, lived.rev);
    assert_eq!(loaded.log, lived.log);
    assert_eq!(loaded.log.len() as u64, loaded.rev);
    assert_eq!(seen.len(), 3);
}
