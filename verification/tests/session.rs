use base64::engine::general_purpose::STANDARD as BASE64;
use base64::Engine;
use collab_server::config::{
    allowed_origins, flush_interval_ms, DEFAULT_DATA_DIR, DEFAULT_FLUSH_IDLE_MS,
    DEFAULT_FLUSH_MAX_OPS, LISTEN_ADDR,
};
use collab_server::coordinator::Effect;
use collab_server::document::Doc;
use collab_server::handlers::http::{
    get_snapshot, health, update_password, HttpError, PasswordUpdateReq, SnapshotQuery,
};
use collab_server::handlers::ws::{
    handle_client_message, origin_allowed, ws_handler, ClientMeta, Session, SessionError,
    UpgradeDecision, WsQuery,
};
use collab_server::replay::get_or_load_doc;
use collab_server::state::AppState;
use collab_server::storage::{hash_password, StateError};
use collab_server::types::{
    ClientMsg, CompatOpContext, CompatSelection, CursorState, DocEvent, Edit, ImeEvent, OpKind,
    SelectionDirection, ServerMsg, TextRange,
};

fn mk_state() -> AppState {
    AppState::new("wal".to_string(), "snapshots".to_string(), 1_000, 128, true, Vec::new())
}

fn prod_state(origins: &[&str]) -> AppState {
    AppState::new(
        "wal".to_string(),
        "snapshots".to_string(),
        1_000,
        128,
        false,
        origins.iter().map(|o| o.to_string()).collect(),
    )
}

fn loaded(slug: &str) -> AppState {
    let mut state = mk_state();
    get_or_load_doc(&mut state, slug, None, &Vec::new(), None, 1).unwrap();
    state
}

fn protected(slug: &str, content: &str, password: &str) -> AppState {
    let mut state = mk_state();
    let mut doc = Doc::default();
    doc.content = content.into();
    doc.password_hash = Some(hash_password(password));
    assert!(state.insert_doc(slug, doc));
    state
}

fn fresh() -> Session {
    Session {
        established: false,
        client_meta: None,
    }
}

fn hello(slug: &str, client_id: u128) -> ClientMsg {
    ClientMsg::Hello {
        slug: slug.into(),
        client_id,
        label: Some(" Ann ".into()),
        color: None,
    }
}

fn cursor_at(position: usize) -> CursorState {
    CursorState {
        position,
        anchor: None,
        selection_direction: None,
    }
}

#[test]
fn health_endpoint_returns_ok() {
    assert_eq!(health(), "ok");
}

#[test]
fn get_snapshot_enforces_password() {
    let state = protected("secure", "secret text", "pw");
    let result = get_snapshot(
        &state,
        SnapshotQuery {
            slug: "secure".into(),
            password: None,
        },
        None,
    );
    assert!(matches!(result, Err(HttpError::Unauthorized)));

    let token = BASE64.encode("secure:pw");
    let header = format!("Basic {}", token);
    let ok = get_snapshot(
        &state,
        SnapshotQuery {
            slug: "secure".into(),
            password: None,
        },
        Some(&header),
    )
    .expect("authorized");

    assert_eq!(ok.slug, "secure");
    assert_eq!(ok.content, "secret text");
}

#[test]
fn router_enforces_snapshot_auth() {
    let state = protected("secure", "secret", "pw");
    let result = get_snapshot(
        &state,
        SnapshotQuery {
            slug: "secure".into(),
            password: None,
        },
        None,
    );
    assert_eq!(result, Err(HttpError::Unauthorized));
}

#[test]
fn get_snapshot_accepts_query_password() {
    let state = protected("secure", "secret text", "pw");
    let ok = get_snapshot(
        &state,
        SnapshotQuery {
            slug: "secure".into(),
            password: Some("pw".into()),
        },
        None,
    )
    .expect("authorized");

    assert_eq!(ok.slug, "secure");
    assert_eq!(ok.content, "secret text");
    assert_eq!(ok.rev, 0);
}

#[test]
fn get_snapshot_refuses_unknown_and_invalid_slugs() {
    let state = mk_state();
    let q = |slug: &str| SnapshotQuery {
        slug: slug.into(),
        password: None,
    };
    assert_eq!(get_snapshot(&state, q("missing"), None), Err(HttpError::BadRequest));
    assert_eq!(get_snapshot(&state, q("../x"), None), Err(HttpError::BadRequest));
    let state = protected("secure", "t", "pw");
    let wrong = SnapshotQuery {
        slug: "secure".into(),
        password: Some("nope".into()),
    };
    let header = format!("Basic {}", BASE64.encode("secure:pw"));
    assert_eq!(
        get_snapshot(&state, wrong, Some(&header)),
        Err(HttpError::Unauthorized)
    );
}

#[test]
fn update_password_validates_current_password() {
    let mut state = protected("pw-doc", "", "old");
    let slug = "pw-doc";

    let resp = update_password(
        &mut state,
        PasswordUpdateReq {
            slug: slug.into(),
            current_password: Some("wrong".into()),
            new_password: Some("new".into()),
        },
    );
    assert!(matches!(resp, Err(HttpError::Unauthorized)));

    let resp = update_password(
        &mut state,
        PasswordUpdateReq {
            slug: slug.into(),
            current_password: Some("old".into()),
            new_password: Some("new".into()),
        },
    )
    .expect("password updated");

    let expected = hash_password("new");
    assert_eq!(resp.as_deref(), Some(expected.as_str()));
    assert_eq!(
        state.registry.doc(slug).unwrap().password_hash.as_deref(),
        Some(expected.as_str())
    );
}

#[test]
fn update_password_sets_and_clears() {
    let mut state = loaded("open");
    let req = |current: Option<&str>, new: Option<&str>| PasswordUpdateReq {
        slug: "open".into(),
        current_password: current.map(|s| s.to_string()),
        new_password: new.map(|s| s.to_string()),
    };
    assert_eq!(
        update_password(&mut state, req(Some("x"), Some("n"))),
        Err(HttpError::Unauthorized)
    );
    assert_eq!(
        update_password(&mut state, req(None, Some("n"))),
        Ok(Some(hash_password("n")))
    );
    assert_eq!(
        update_password(&mut state, req(None, Some("m"))),
        Err(HttpError::Unauthorized)
    );
    assert_eq!(update_password(&mut state, req(Some("n"), Some(""))), Ok(None));
    assert_eq!(state.registry.doc("open").unwrap().password_hash, None);
    assert_eq!(update_password(&mut state, req(Some(""), None)), Ok(None));
    let mut other = mk_state();
    assert_eq!(
        update_password(&mut other, req(None, None)),
        Err(HttpError::BadRequest)
    );
}

#[test]
fn origin_gate_matches_by_prefix() {
    let state = prod_state(&["https://a.example"]);
    assert!(!origin_allowed(&state, Some("https://b.example")));
    assert!(origin_allowed(&state, Some("https://a.example/x")));
    assert!(origin_allowed(&state, Some("https://a.example")));
    assert!(!origin_allowed(&state, Some("https://a.exampl")));
    assert!(!origin_allowed(&state, None));
    assert!(origin_allowed(&prod_state(&[]), Some("https://b.example")));
    assert!(origin_allowed(&prod_state(&[]), None));
    assert!(origin_allowed(&mk_state(), Some("https://b.example")));
    assert!(origin_allowed(&mk_state(), None));
    let two = prod_state(&["https://a.example", "https://c.example"]);
    assert!(origin_allowed(&two, Some("https://c.example")));
}

#[test]
fn upgrade_is_decided_by_origin_then_slug_then_password() {
    let mut state = prod_state(&["https://a.example"]);
    let mut doc = Doc::default();
    doc.password_hash = Some(hash_password("pw"));
    assert!(state.insert_doc("d", doc));
    let q = |slug: &str, token: Option<String>, password: Option<&str>| WsQuery {
        slug: slug.into(),
        token,
        password: password.map(|p| p.to_string()),
    };
    assert_eq!(
        ws_handler(&state, &q("../x", None, Some("pw")), Some("https://b.example"), None),
        UpgradeDecision::Forbidden
    );
    assert_eq!(
        ws_handler(&state, &q("d", None, Some("pw")), None, None),
        UpgradeDecision::Forbidden
    );
    let ok = Some("https://a.example/x");
    assert_eq!(
        ws_handler(&state, &q("../x", None, Some("pw")), ok, None),
        UpgradeDecision::BadRequest
    );
    assert_eq!(
        ws_handler(&state, &q("other", None, Some("pw")), ok, None),
        UpgradeDecision::BadRequest
    );
    assert_eq!(
        ws_handler(&state, &q("d", None, None), ok, None),
        UpgradeDecision::Unauthorized
    );
    assert_eq!(
        ws_handler(&state, &q("d", None, Some("pw")), ok, None),
        UpgradeDecision::Upgrade
    );
    let good = BASE64.encode("d:pw");
    let bad = BASE64.encode("d:no");
    let header = format!("Basic {}", good);
    let bad_header = format!("Basic {}", bad);
    assert_eq!(
        ws_handler(&state, &q("d", None, None), ok, Some(&header)),
        UpgradeDecision::Upgrade
    );
    assert_eq!(
        ws_handler(&state, &q("d", Some(good.clone()), None), ok, None),
        UpgradeDecision::Upgrade
    );
    assert_eq!(
        ws_handler(&state, &q("d", Some(good.clone()), Some("no")), ok, Some(&header)),
        UpgradeDecision::Unauthorized
    );
    assert_eq!(
        ws_handler(&state, &q("d", Some(good), None), ok, Some(&bad_header)),
        UpgradeDecision::Unauthorized
    );
}

#[test]
fn hello_registers_sends_the_clients_and_announces() {
    let mut state = loaded("s");
    let mut session = fresh();
    let effects = handle_client_message(hello("s", 11), &mut session, &mut state, "s", 100).unwrap();
    assert_eq!(
        session,
        Session {
            established: true,
            client_meta: Some(ClientMeta { id: 11, compat: false })
        }
    );
    assert_eq!(effects.len(), 2);
    match &effects[0] {
        Effect::Send {
            msg: ServerMsg::PresenceSnapshot { slug, clients },
        } => {
            assert_eq!(slug, "s");
            assert_eq!(clients.len(), 1);
            assert_eq!(clients[0].label.as_deref(), Some("Ann"));
        }
        other => panic!("unexpected effect {:?}", other),
    }
    match &effects[1] {
        Effect::Broadcast {
            msg: ServerMsg::PresenceDiff { added, updated, removed, .. },
        } => {
            assert_eq!(added.len(), 1);
            assert_eq!(added[0].client_id, 11);
            assert_eq!(added[0].last_seen, 100);
            assert!(updated.is_empty() && removed.is_empty());
        }
        other => panic!("unexpected effect {:?}", other),
    }
    let again = handle_client_message(hello("s", 12), &mut session, &mut state, "s", 101).unwrap();
    assert!(again.is_empty());
    assert_eq!(session.client_meta.unwrap().id, 11);
}

#[test]
fn hello_for_another_document_ends_the_session() {
    let mut state = loaded("s");
    let mut session = fresh();
    assert_eq!(
        handle_client_message(hello("t", 11), &mut session, &mut state, "s", 100),
        Err(SessionError::SlugMismatch)
    );
    assert_eq!(session, fresh());
    assert!(!state.registry.has_presence("s"));
}

#[test]
fn messages_before_the_greeting_are_dropped() {
    let mut state = loaded("s");
    let mut session = fresh();
    let msgs = vec![
        ClientMsg::Edit {
            slug: "s".into(),
            edit: Edit {
                base_rev: 0,
                ops: vec![OpKind::Insert { pos: 0, text: "a".into() }],
                client_id: None,
                op_id: None,
                cursor_before: None,
                cursor_after: None,
                ts: None,
            },
        },
        ClientMsg::Cursor {
            slug: "s".into(),
            cursor: cursor_at(0),
            op_id: None,
            ts: None,
        },
        ClientMsg::Ime {
            slug: "s".into(),
            ime: ImeEvent::Start { range: TextRange { start: 0, end: 0 } },
            op_id: None,
            ts: None,
        },
        ClientMsg::Profile {
            slug: "s".into(),
            label: None,
            color: None,
        },
        ClientMsg::Ping { ts: Some(1) },
        ClientMsg::Pong,
    ];
    for msg in msgs {
        assert_eq!(
            handle_client_message(msg, &mut session, &mut state, "s", 5),
            Ok(vec![])
        );
    }
    assert_eq!(session, fresh());
    assert_eq!(state.registry.doc("s").unwrap().rev, 0);
    assert!(!state.registry.has_presence("s"));
}

#[test]
fn edit_in_a_session_is_filled_in_and_applied() {
    let mut state = loaded("s");
    let mut session = fresh();
    handle_client_message(hello("s", 11), &mut session, &mut state, "s", 100).unwrap();
    let msg = ClientMsg::Edit {
        slug: "ignored".into(),
        edit: Edit {
            base_rev: 0,
            ops: vec![OpKind::Insert { pos: 0, text: "hi".into() }],
            client_id: None,
            op_id: Some(5),
            cursor_before: None,
            cursor_after: Some(cursor_at(2)),
            ts: None,
        },
    };
    let effects = handle_client_message(msg, &mut session, &mut state, "s", 200).unwrap();
    assert_eq!(effects.len(), 4);
    match &effects[0] {
        Effect::AppendWal {
            entry,
            required: true,
        } => {
            assert_eq!(entry.ts, 200);
            match &entry.event {
                DocEvent::Edit { edit } => {
                    assert_eq!(edit.client_id, Some(11));
                    assert_eq!(edit.ts, Some(200));
                }
                other => panic!("unexpected event {:?}", other),
            }
        }
        other => panic!("unexpected effect {:?}", other),
    }
    assert!(matches!(
        &effects[1],
        Effect::Broadcast { msg: ServerMsg::Applied { rev: 1, client_id: Some(11), op_id: Some(5), ts: 200, .. } }
    ));
    assert!(matches!(
        &effects[2],
        Effect::Broadcast { msg: ServerMsg::Cursor { client_id: 11, ts: 200, .. } }
    ));
    assert_eq!(state.registry.doc("s").unwrap().content, "hi");
    assert_eq!(state.registry.presence("s").unwrap().clients[&11].cursor, Some(cursor_at(2)));
}

#[test]
fn cursor_message_is_logged_once_per_operation_id() {
    let mut state = loaded("s");
    let mut session = fresh();
    handle_client_message(hello("s", 11), &mut session, &mut state, "s", 100).unwrap();
    let msg = || ClientMsg::Cursor {
        slug: "s".into(),
        cursor: cursor_at(3),
        op_id: Some(77),
        ts: Some(150),
    };
    let first = handle_client_message(msg(), &mut session, &mut state, "s", 200).unwrap();
    assert_eq!(first.len(), 3);
    match &first[0] {
        Effect::AppendWal {
            entry,
            required: false,
        } => {
            assert_eq!(entry.ts, 150);
            assert_eq!(
                entry.event,
                DocEvent::Cursor {
                    client_id: 11,
                    op_id: Some(77),
                    cursor: cursor_at(3)
                }
            );
        }
        other => panic!("unexpected effect {:?}", other),
    }
    assert_eq!(
        first[1],
        Effect::Broadcast {
            msg: ServerMsg::Cursor {
                slug: "s".into(),
                client_id: 11,
                cursor: cursor_at(3),
                op_id: Some(77),
                ts: 150
            }
        }
    );
    let second = handle_client_message(msg(), &mut session, &mut state, "s", 300).unwrap();
    assert_eq!(second.len(), 2);
    assert!(matches!(second[0], Effect::Broadcast { msg: ServerMsg::Cursor { .. } }));
    assert_eq!(state.registry.presence("s").unwrap().clients[&11].last_seen, 300);
}

#[test]
fn ime_message_updates_presence_and_is_announced() {
    let mut state = loaded("s");
    let mut session = fresh();
    handle_client_message(hello("s", 11), &mut session, &mut state, "s", 100).unwrap();
    let ime = ImeEvent::Commit {
        replace_range: TextRange { start: 0, end: 2 },
        text: "か".into(),
    };
    let msg = ClientMsg::Ime {
        slug: "s".into(),
        ime: ime.clone(),
        op_id: None,
        ts: None,
    };
    let effects = handle_client_message(msg, &mut session, &mut state, "s", 200).unwrap();
    assert_eq!(effects.len(), 3);
    assert!(matches!(effects[0], Effect::AppendWal { required: false, .. }));
    assert_eq!(
        effects[1],
        Effect::Broadcast {
            msg: ServerMsg::Ime {
                slug: "s".into(),
                client_id: 11,
                ime,
                op_id: None,
                ts: 200
            }
        }
    );
    let entry = &state.registry.presence("s").unwrap().clients[&11];
    assert_eq!(entry.ime.as_ref().unwrap().phase, "commit");
}

#[test]
fn profile_ping_and_pong_in_a_session() {
    let mut state = loaded("s");
    let mut session = fresh();
    handle_client_message(hello("s", 11), &mut session, &mut state, "s", 100).unwrap();
    let profile = |slug: &str| ClientMsg::Profile {
        slug: slug.into(),
        label: Some("Bob".into()),
        color: Some(" ".into()),
    };
    assert_eq!(
        handle_client_message(profile("t"), &mut session, &mut state, "s", 110),
        Ok(vec![])
    );
    let effects = handle_client_message(profile("s"), &mut session, &mut state, "s", 120).unwrap();
    assert_eq!(effects.len(), 1);
    match &effects[0] {
        Effect::Broadcast {
            msg: ServerMsg::PresenceDiff { updated, .. },
        } => {
            assert_eq!(updated[0].label.as_deref(), Some("Bob"));
            assert_eq!(updated[0].color, None);
        }
        other => panic!("unexpected effect {:?}", other),
    }
    assert_eq!(
        handle_client_message(ClientMsg::Ping { ts: Some(9) }, &mut session, &mut state, "s", 130),
        Ok(vec![Effect::Send {
            msg: ServerMsg::Pong { ts: Some(9) }
        }])
    );
    assert_eq!(state.registry.presence("s").unwrap().clients[&11].last_seen, 130);
    assert_eq!(
        handle_client_message(ClientMsg::Pong, &mut session, &mut state, "s", 140),
        Ok(vec![])
    );
    assert_eq!(state.registry.presence("s").unwrap().clients[&11].last_seen, 140);
}

#[test]
fn join_checks_the_password_and_sends_the_document() {
    let mut state = protected("s", "text", "pw");
    let mut session = fresh();
    let join = |session_id: &str, password: Option<&str>, token: Option<String>| ClientMsg::Join {
        session_id: session_id.into(),
        client_id: 21,
        label: None,
        color: Some("#fff".into()),
        password: password.map(|p| p.to_string()),
        token,
    };
    assert_eq!(
        handle_client_message(join("t", Some("pw"), None), &mut session, &mut state, "s", 1),
        Ok(vec![])
    );
    assert_eq!(
        handle_client_message(join("s", Some("no"), None), &mut session, &mut state, "s", 1),
        Err(SessionError::Unauthorized)
    );
    assert_eq!(
        handle_client_message(join("s", None, None), &mut session, &mut state, "s", 1),
        Err(SessionError::Unauthorized)
    );
    assert_eq!(session, fresh());
    let token = BASE64.encode("s:pw");
    let effects =
        handle_client_message(join("s", None, Some(token)), &mut session, &mut state, "s", 7).unwrap();
    assert_eq!(
        session,
        Session {
            established: true,
            client_meta: Some(ClientMeta { id: 21, compat: true })
        }
    );
    assert_eq!(effects.len(), 3);
    assert!(matches!(effects[0], Effect::Send { msg: ServerMsg::PresenceSnapshot { .. } }));
    assert!(matches!(effects[1], Effect::Broadcast { msg: ServerMsg::PresenceDiff { .. } }));
    match &effects[2] {
        Effect::Send {
            msg: ServerMsg::CompatSnapshot { session_id, rev, content, presence },
        } => {
            assert_eq!(session_id, "s");
            assert_eq!(*rev, 0);
            assert_eq!(content, "text");
            assert_eq!(presence.as_ref().unwrap().len(), 1);
        }
        other => panic!("unexpected effect {:?}", other),
    }
    let mut unloaded = mk_state();
    let mut session = fresh();
    assert_eq!(
        handle_client_message(join("s", None, None), &mut session, &mut unloaded, "s", 1),
        Err(SessionError::Unavailable(StateError::NotLoaded))
    );
}

#[test]
fn compat_op_establishes_the_session_and_applies_one_operation() {
    let mut state = loaded("s");
    let mut session = fresh();
    let op = |session_id: &str, client_id: Option<u128>| ClientMsg::CompatOp {
        session_id: session_id.into(),
        operation: OpKind::Insert { pos: 0, text: "x".into() },
        context: CompatOpContext {
            base_version: 0,
            client_id,
            selection: Some(CompatSelection {
                position: 1,
                anchor: Some(0),
                selection_direction: Some(SelectionDirection::Backward),
            }),
            op_id: None,
            ts: None,
        },
    };
    assert_eq!(
        handle_client_message(op("s", None), &mut session, &mut state, "s", 10),
        Err(SessionError::MissingClientId)
    );
    assert!(session.established);
    assert_eq!(session.client_meta, None);
    let mut session = fresh();
    assert_eq!(
        handle_client_message(op("t", Some(31)), &mut session, &mut state, "s", 10),
        Ok(vec![])
    );
    assert_eq!(session, fresh());
    assert_eq!(
        handle_client_message(ClientMsg::Ping { ts: Some(1) }, &mut session, &mut state, "s", 11),
        Ok(vec![])
    );
    assert_eq!(state.registry.doc("s").unwrap().rev, 0);
    let effects = handle_client_message(op("s", Some(31)), &mut session, &mut state, "s", 20).unwrap();
    assert_eq!(session.client_meta, Some(ClientMeta { id: 31, compat: true }));
    assert_eq!(effects.len(), 2);
    match &effects[0] {
        Effect::AppendWal { entry, required: true } => match &entry.event {
            DocEvent::Edit { edit } => {
                assert_eq!(edit.client_id, Some(31));
                assert_eq!(edit.ts, Some(20));
                assert_eq!(
                    edit.cursor_after,
                    Some(CursorState {
                        position: 1,
                        anchor: Some(0),
                        selection_direction: Some(SelectionDirection::Backward)
                    })
                );
                assert_eq!(edit.ops.len(), 1);
            }
            other => panic!("unexpected event {:?}", other),
        },
        other => panic!("unexpected effect {:?}", other),
    }
    assert_eq!(state.registry.doc("s").unwrap().content, "x");
    let mut hello_session = fresh();
    handle_client_message(hello("s", 41), &mut hello_session, &mut state, "s", 30).unwrap();
    handle_client_message(op("s", None), &mut hello_session, &mut state, "s", 40).unwrap();
    assert_eq!(hello_session.client_meta, Some(ClientMeta { id: 41, compat: true }));
    assert_eq!(state.registry.doc("s").unwrap().rev, 2);
}

#[test]
fn selection_and_cursor_convert_field_by_field() {
    let selection = CompatSelection {
        position: 4,
        anchor: Some(2),
        selection_direction: Some(SelectionDirection::Forward),
    };
    let cursor = CursorState::from(selection);
    assert_eq!(cursor.position, 4);
    assert_eq!(cursor.anchor, Some(2));
    assert_eq!(cursor.selection_direction, Some(SelectionDirection::Forward));
    assert_eq!(CompatSelection::from(cursor), selection);
}

#[test]
fn allowed_origins_come_from_the_list_or_the_domain() {
    assert_eq!(
        allowed_origins(Some(" https://a.example , ,https://b.example,"), Some("x.example")),
        vec!["https://a.example", "https://b.example"]
    );
    assert_eq!(
        allowed_origins(Some(" , "), Some("x.example")),
        vec!["https://x.example"]
    );
    assert_eq!(allowed_origins(None, Some("x.example")), vec!["https://x.example"]);
    assert!(allowed_origins(None, None).is_empty());
    assert!(allowed_origins(Some(""), None).is_empty());
    assert_eq!(flush_interval_ms(1500), 1500);
    assert_eq!(flush_interval_ms(10), 50);
    assert_eq!(flush_interval_ms(50), 50);
    assert_eq!(DEFAULT_DATA_DIR, "/vault");
    assert_eq!(DEFAULT_FLUSH_IDLE_MS, 1500);
    assert_eq!(DEFAULT_FLUSH_MAX_OPS, 200);
    assert_eq!(LISTEN_ADDR, "0.0.0.0:9000");
}
