//! Who is connected to which document: label, colour, cursor and
//! input-method state of every client, by slug and client id.

use vstd::prelude::*;
use std::collections::HashMap;
use crate::state::{same_settings, AppState, DocPresence, RegistryView};
use crate::text::{trim, trim_spec};
use crate::types::{
    CursorState, ImeEvent, ImeEventView, ImeSnapshot, ImeSnapshotView, PresenceState,
    PresenceView,
};

verus! {

/// The longest label that presence keeps, in code points.
pub const MAX_LABEL_LEN: usize = 64;

/// The longest colour that presence keeps, in code points.
pub const MAX_COLOR_LEN: usize = 32;

/// A profile field as presence keeps it: trimmed, unset where nothing is
/// left, and cut to `limit` code points.
pub open spec fn sanitize_spec(text: Option<Seq<char>>, limit: usize) -> Option<Seq<char>> {
    match text {
        None => None,
        Some(t) => {
            let trimmed = trim_spec(t);
            if trimmed.len() == 0 {
                None
            } else if trimmed.len() <= limit {
                Some(trimmed)
            } else {
                Some(trimmed.take(limit as int))
            }
        },
    }
}

/// What presence remembers of an input-method event.
pub open spec fn ime_snapshot_spec(event: ImeEventView) -> ImeSnapshotView {
    match event {
        ImeEventView::Start { range } => ImeSnapshotView {
            phase: "start"@,
            range: Some(range),
            text: None,
        },
        ImeEventView::Update { range, text } => ImeSnapshotView {
            phase: "update"@,
            range: Some(range),
            text: Some(text),
        },
        ImeEventView::Commit { replace_range, text } => ImeSnapshotView {
            phase: "commit"@,
            range: Some(replace_range),
            text: Some(text),
        },
        ImeEventView::Cancel { range } => ImeSnapshotView {
            phase: "cancel"@,
            range: Some(range),
            text: None,
        },
    }
}

/// The clients of `slug`; none where the slug has no bucket.
pub open spec fn bucket_of(reg: RegistryView, slug: Seq<char>) -> Map<u128, PresenceView> {
    if reg.presence.contains_key(slug) {
        reg.presence[slug]
    } else {
        Map::empty()
    }
}

/// The entry of a client that has just registered.
pub open spec fn registered(
    client_id: u128,
    label: Option<Seq<char>>,
    color: Option<Seq<char>>,
    now: u64,
) -> PresenceView {
    PresenceView {
        client_id,
        label: sanitize_spec(label, MAX_LABEL_LEN),
        color: sanitize_spec(color, MAX_COLOR_LEN),
        cursor: None,
        ime: None,
        last_seen: now,
    }
}

/// A profile field after an update: a value that survives sanitising
/// replaces it, one that does not clears it, and no value leaves it.
pub open spec fn updated_field(
    current: Option<Seq<char>>,
    given: Option<Seq<char>>,
    limit: usize,
) -> Option<Seq<char>> {
    if given is Some {
        sanitize_spec(given, limit)
    } else {
        current
    }
}

/// `snapshot` lists the clients of `bucket`, each once, in some order.
pub open spec fn lists_bucket(
    snapshot: Seq<PresenceView>,
    bucket: Map<u128, PresenceView>,
) -> bool {
    exists|keys: Seq<u128>|
        #![trigger keys.no_duplicates()]
        {
            &&& keys.no_duplicates()
            &&& keys.len() == snapshot.len()
            &&& forall|id: u128| keys.contains(id) <==> bucket.contains_key(id)
            &&& forall|i: int| 0 <= i < keys.len() ==> snapshot[i] == bucket[#[trigger] keys[i]]
        }
}

fn sanitize(text: Option<String>, limit: usize) -> (res: Option<String>)
    ensures
        res.deep_view() == sanitize_spec(text.deep_view(), limit),
{
    match text {
        None => None,
        Some(t) => {
            let trimmed = trim(t.as_str());
            let n: usize = trimmed.unicode_len();
            if n == 0 {
                None
            } else if n <= limit {
                Some(String::from_str(trimmed))
            } else {
                Some(String::from_str(trimmed.substring_char(0, limit)))
            }
        },
    }
}

/// A label as presence keeps it: trimmed, unset where empty, at most 64
/// code points.
pub fn sanitize_label(label: Option<String>) -> (res: Option<String>)
    ensures
        res.deep_view() == sanitize_spec(label.deep_view(), MAX_LABEL_LEN),
{
    sanitize(label, MAX_LABEL_LEN)
}

/// A colour as presence keeps it: trimmed, unset where empty, at most 32
/// code points.
pub fn sanitize_color(color: Option<String>) -> (res: Option<String>)
    ensures
        res.deep_view() == sanitize_spec(color.deep_view(), MAX_COLOR_LEN),
{
    sanitize(color, MAX_COLOR_LEN)
}

/// What presence remembers of an input-method event: its phase by name, its
/// range, and its text where the phase carries one.
pub fn ime_event_snapshot(event: &ImeEvent) -> (res: Option<ImeSnapshot>)
    ensures
        res.deep_view() == Some(ime_snapshot_spec(event.deep_view())),
{
    match event {
        ImeEvent::Start { range } => Some(
            ImeSnapshot { phase: String::from_str("start"), range: Some(*range), text: None },
        ),
        ImeEvent::Update { range, text } => Some(
            ImeSnapshot {
                phase: String::from_str("update"),
                range: Some(*range),
                text: Some(text.clone()),
            },
        ),
        ImeEvent::Commit { replace_range, text } => Some(
            ImeSnapshot {
                phase: String::from_str("commit"),
                range: Some(*replace_range),
                text: Some(text.clone()),
            },
        ),
        ImeEvent::Cancel { range } => Some(
            ImeSnapshot { phase: String::from_str("cancel"), range: Some(*range), text: None },
        ),
    }
}

/// Takes the bucket of `slug` out of the registry, or makes an empty one.
fn open_bucket(state: &mut AppState, slug: &str) -> (bucket: DocPresence)
    requires
        old(state).wf(),
    ensures
        final(state).wf(),
        bucket.deep_view() == bucket_of(old(state)@, slug@),
        final(state)@.docs == old(state)@.docs,
        final(state)@.recent == old(state)@.recent,
        final(state)@.presence == old(state)@.presence.remove(slug@),
        same_settings(*old(state), *final(state)),
{
    broadcast use vstd::std_specs::hash::group_hash_axioms;

    match state.registry.take_presence(slug) {
        Some(bucket) => bucket,
        None => {
            let bucket = DocPresence { clients: HashMap::new() };
            bucket
        },
    }
}

/// Puts `entry` in the bucket under `id`, in place of what was there.
fn store(bucket: &mut DocPresence, id: u128, entry: PresenceState)
    ensures
        final(bucket).deep_view() == old(bucket).deep_view().insert(id, entry.deep_view()),
{
    broadcast use vstd::std_specs::hash::group_hash_axioms;

    bucket.clients.insert(id, entry);
}

/// Takes the entry of `id` out of the bucket.
fn withdraw(bucket: &mut DocPresence, id: u128) -> (res: Option<PresenceState>)
    ensures
        final(bucket).deep_view() == old(bucket).deep_view().remove(id),
        res is Some <==> old(bucket).deep_view().contains_key(id),
        res matches Some(p) ==> p.deep_view() == old(bucket).deep_view()[id],
{
    broadcast use vstd::std_specs::hash::group_hash_axioms;

    let res = bucket.clients.remove(&id);
    res
}

/// The ids of the clients of a bucket, each once, in the order in which the
/// map yields them.
fn list_ids(bucket: &DocPresence) -> (res: Vec<u128>)
    ensures
        res@.no_duplicates(),
        forall|id: u128| res@.contains(id) <==> bucket.clients@.contains_key(id),
{
    broadcast use vstd::std_specs::hash::group_hash_axioms;

    let mut out: Vec<u128> = Vec::new();
    for key in it: bucket.clients.keys()
        invariant
            out.len() == it.index(),
            it.seq().no_duplicates(),
            it.seq().unref().to_set() == bucket.clients@.dom(),
            forall|i: int| 0 <= i < out.len() ==> #[trigger] out[i] == *it.seq()[i],
            it.index() == it.seq().len() ==> forall|id: u128|
                out@.contains(id) <==> bucket.clients@.contains_key(id),
    {
        out.push(*key);
        proof {
            let all = it.seq().unref();
            assert forall|id: u128| it.index() + 1 == it.seq().len() implies (out@.contains(id)
                <==> bucket.clients@.contains_key(id)) by {
                assert(out@ =~= all);
            }
        }
    }
    out
}

/// The clients of a bucket, each once, in the order in which the map yields
/// them.
fn list_clients(bucket: &DocPresence) -> (res: Vec<PresenceState>)
    ensures
        lists_bucket(res.deep_view(), bucket.deep_view()),
{
    broadcast use vstd::std_specs::hash::group_hash_axioms;

    let ids = list_ids(bucket);
    let mut out: Vec<PresenceState> = Vec::new();
    let mut k: usize = 0;
    while k < ids.len()
        invariant
            k <= ids.len(),
            out.len() == k,
            forall|id: u128| ids@.contains(id) <==> bucket.clients@.contains_key(id),
            forall|i: int| 0 <= i < k ==> #[trigger] out[i] == bucket.clients@[ids[i]],
        decreases ids.len() - k,
    {
        assert(ids@.contains(ids[k as int]));
        match bucket.clients.get(&ids[k]) {
            Some(entry) => out.push(entry.clone()),
            None => {},
        }
        k += 1;
    }
    proof {
        let keys = ids@;
        assert forall|i: int| 0 <= i < keys.len() implies out.deep_view()[i]
            == bucket.deep_view()[#[trigger] keys[i]] by {
            assert(keys.contains(keys[i]));
        }
    }
    out
}

/// Everything but the presence buckets is as it was.
pub open spec fn presence_only(before: AppState, after: AppState) -> bool {
    &&& after@.docs == before@.docs
    &&& after@.recent == before@.recent
    &&& same_settings(before, after)
}

/// The entry `p` seen at the time `now`.
pub open spec fn touched(p: PresenceView, now: u64) -> PresenceView {
    PresenceView { last_seen: now, ..p }
}

/// The entry `p` with a new cursor, seen at the time `now`.
pub open spec fn with_cursor(p: PresenceView, cursor: CursorState, now: u64) -> PresenceView {
    PresenceView { cursor: Some(cursor), last_seen: now, ..p }
}

/// The entry `p` after an input-method event, seen at the time `now`.
pub open spec fn with_ime(p: PresenceView, ime: ImeEventView, now: u64) -> PresenceView {
    PresenceView { ime: Some(ime_snapshot_spec(ime)), last_seen: now, ..p }
}

/// The entry `p` after a profile update, seen at the time `now`.
pub open spec fn with_profile(
    p: PresenceView,
    label: Option<Seq<char>>,
    color: Option<Seq<char>>,
    now: u64,
) -> PresenceView {
    PresenceView {
        label: updated_field(p.label, label, MAX_LABEL_LEN),
        color: updated_field(p.color, color, MAX_COLOR_LEN),
        last_seen: now,
        ..p
    }
}

/// The buckets after the client `id` of `slug` got the entry `entry`. The
/// slug has a bucket afterwards, whether it had one or not.
pub open spec fn presence_with(
    reg: RegistryView,
    slug: Seq<char>,
    id: u128,
    entry: PresenceView,
) -> Map<Seq<char>, Map<u128, PresenceView>> {
    reg.presence.insert(slug, bucket_of(reg, slug).insert(id, entry))
}

/// The buckets after `slug` was looked up for a client that it does not
/// hold: the slug has a bucket afterwards, empty where it had none.
pub open spec fn presence_opened(reg: RegistryView, slug: Seq<char>) -> Map<
    Seq<char>,
    Map<u128, PresenceView>,
> {
    reg.presence.insert(slug, bucket_of(reg, slug))
}

/// The buckets after the client `id` left `slug`: a bucket that becomes
/// empty is dropped, and a slug without a bucket stays without one.
pub open spec fn presence_without(reg: RegistryView, slug: Seq<char>, id: u128) -> Map<
    Seq<char>,
    Map<u128, PresenceView>,
> {
    if !reg.presence.contains_key(slug) {
        reg.presence
    } else if forall|other: u128| reg.presence[slug].contains_key(other) ==> other == id {
        reg.presence.remove(slug)
    } else {
        reg.presence.insert(slug, reg.presence[slug].remove(id))
    }
}

/// Registers the client `client_id` with `slug`, in place of an earlier
/// entry under that id. Label and colour are sanitised. Returns the clients
/// of the slug after that, and the new entry.
pub fn register_presence(
    state: &mut AppState,
    slug: &str,
    client_id: u128,
    label: Option<String>,
    color: Option<String>,
    now: u64,
) -> (res: (Vec<PresenceState>, PresenceState))
    requires
        old(state).wf(),
    ensures
        final(state).wf(),
        presence_only(*old(state), *final(state)),
        final(state)@.presence == presence_with(
            old(state)@,
            slug@,
            client_id,
            registered(client_id, label.deep_view(), color.deep_view(), now),
        ),
        res.1.deep_view() == registered(client_id, label.deep_view(), color.deep_view(), now),
        lists_bucket(res.0.deep_view(), final(state)@.presence[slug@]),
{
    let mut bucket = open_bucket(state, slug);
    let presence = PresenceState {
        client_id,
        label: sanitize_label(label),
        color: sanitize_color(color),
        cursor: None,
        ime: None,
        last_seen: now,
    };
    let copy = presence.clone();
    store(&mut bucket, client_id, presence);
    let snapshot = list_clients(&bucket);
    state.registry.put_presence(slug, bucket);
    (snapshot, copy)
}

/// Notes that the client `client_id` of `slug` was seen at `now`. A client
/// that is not registered stays so.
pub fn touch_presence(state: &mut AppState, slug: &str, client_id: &u128, now: u64)
    requires
        old(state).wf(),
    ensures
        final(state).wf(),
        presence_only(*old(state), *final(state)),
        final(state)@.presence == (if bucket_of(old(state)@, slug@).contains_key(*client_id) {
            presence_with(
                old(state)@,
                slug@,
                *client_id,
                touched(bucket_of(old(state)@, slug@)[*client_id], now),
            )
        } else {
            presence_opened(old(state)@, slug@)
        }),
{
    let mut bucket = open_bucket(state, slug);
    let ghost before = bucket.deep_view();
    match withdraw(&mut bucket, *client_id) {
        Some(mut p) => {
            p.last_seen = now;
            store(&mut bucket, *client_id, p);
            assert(bucket.deep_view() =~= before.insert(
                *client_id,
                touched(before[*client_id], now),
            ));
        },
        None => {
            assert(bucket.deep_view() =~= before);
        },
    }
    state.registry.put_presence(slug, bucket);
}

/// Gives the client `client_id` of `slug` a new cursor and returns its entry
/// after that; `None`, and no change to any client, where it is not
/// registered.
pub fn update_presence_cursor(
    state: &mut AppState,
    slug: &str,
    client_id: u128,
    cursor: CursorState,
    now: u64,
) -> (res: Option<PresenceState>)
    requires
        old(state).wf(),
    ensures
        final(state).wf(),
        presence_only(*old(state), *final(state)),
        res is Some <==> bucket_of(old(state)@, slug@).contains_key(client_id),
        res matches Some(p) ==> p.deep_view() == with_cursor(
            bucket_of(old(state)@, slug@)[client_id],
            cursor,
            now,
        ) && final(state)@.presence == presence_with(old(state)@, slug@, client_id, p.deep_view()),
        res is None ==> final(state)@.presence == presence_opened(old(state)@, slug@),
{
    let mut bucket = open_bucket(state, slug);
    let ghost before = bucket.deep_view();
    let res = match withdraw(&mut bucket, client_id) {
        Some(mut p) => {
            p.cursor = Some(cursor);
            p.last_seen = now;
            let copy = p.clone();
            store(&mut bucket, client_id, p);
            assert(bucket.deep_view() =~= before.insert(client_id, copy.deep_view()));
            Some(copy)
        },
        None => {
            assert(bucket.deep_view() =~= before);
            None
        },
    };
    state.registry.put_presence(slug, bucket);
    res
}

/// Records an input-method event for the client `client_id` of `slug` and
/// returns its entry after that; `None`, and no change to any client, where
/// it is not registered.
pub fn update_presence_ime(
    state: &mut AppState,
    slug: &str,
    client_id: u128,
    ime: &ImeEvent,
    now: u64,
) -> (res: Option<PresenceState>)
    requires
        old(state).wf(),
    ensures
        final(state).wf(),
        presence_only(*old(state), *final(state)),
        res is Some <==> bucket_of(old(state)@, slug@).contains_key(client_id),
        res matches Some(p) ==> p.deep_view() == with_ime(
            bucket_of(old(state)@, slug@)[client_id],
            ime.deep_view(),
            now,
        ) && final(state)@.presence == presence_with(old(state)@, slug@, client_id, p.deep_view()),
        res is None ==> final(state)@.presence == presence_opened(old(state)@, slug@),
{
    let snapshot = ime_event_snapshot(ime);
    let mut bucket = open_bucket(state, slug);
    let ghost before = bucket.deep_view();
    let res = match withdraw(&mut bucket, client_id) {
        Some(mut p) => {
            p.last_seen = now;
            p.ime = snapshot;
            let copy = p.clone();
            store(&mut bucket, client_id, p);
            assert(bucket.deep_view() =~= before.insert(client_id, copy.deep_view()));
            Some(copy)
        },
        None => {
            assert(bucket.deep_view() =~= before);
            None
        },
    };
    state.registry.put_presence(slug, bucket);
    res
}

/// Takes the client `client_id` out of `slug` and returns its entry. A
/// bucket that is empty after that is dropped.
pub fn remove_presence(state: &mut AppState, slug: &str, client_id: &u128) -> (res: Option<
    PresenceState,
>)
    requires
        old(state).wf(),
    ensures
        final(state).wf(),
        presence_only(*old(state), *final(state)),
        res is Some <==> bucket_of(old(state)@, slug@).contains_key(*client_id),
        res matches Some(p) ==> p.deep_view() == bucket_of(old(state)@, slug@)[*client_id],
        final(state)@.presence == presence_without(old(state)@, slug@, *client_id),
{
    broadcast use vstd::std_specs::hash::group_hash_axioms;

    match state.registry.take_presence(slug) {
        Some(mut bucket) => {
            let ghost before = bucket.deep_view();
            let removed = withdraw(&mut bucket, *client_id);
            let empty = bucket.clients.is_empty();
            proof {
                assert(bucket.deep_view().dom() =~= bucket.clients@.dom());
                if empty {
                    assert forall|other: u128| before.contains_key(other) implies other
                        == *client_id by {
                        assert(!bucket.clients@.dom().contains(other));
                    }
                }
            }
            if !empty {
                state.registry.put_presence(slug, bucket);
            }
            removed
        },
        None => None,
    }
}

/// Changes label and colour of the client `client_id` of `slug` and returns
/// its entry after that; `None`, and no change to any client, where it is
/// not registered. A value that is given replaces the field, or clears it
/// where nothing is left after sanitising.
pub fn update_presence_profile(
    state: &mut AppState,
    slug: &str,
    client_id: u128,
    label: Option<String>,
    color: Option<String>,
    now: u64,
) -> (res: Option<PresenceState>)
    requires
        old(state).wf(),
    ensures
        final(state).wf(),
        presence_only(*old(state), *final(state)),
        res is Some <==> bucket_of(old(state)@, slug@).contains_key(client_id),
        res matches Some(p) ==> p.deep_view() == with_profile(
            bucket_of(old(state)@, slug@)[client_id],
            label.deep_view(),
            color.deep_view(),
            now,
        ) && final(state)@.presence == presence_with(old(state)@, slug@, client_id, p.deep_view()),
        res is None ==> final(state)@.presence == presence_opened(old(state)@, slug@),
{
    let mut bucket = open_bucket(state, slug);
    let ghost before = bucket.deep_view();
    let res = match withdraw(&mut bucket, client_id) {
        Some(mut p) => {
            if label.is_some() {
                p.label = sanitize_label(label);
            }
            if color.is_some() {
                p.color = sanitize_color(color);
            }
            p.last_seen = now;
            let copy = p.clone();
            store(&mut bucket, client_id, p);
            assert(bucket.deep_view() =~= before.insert(client_id, copy.deep_view()));
            Some(copy)
        },
        None => {
            assert(bucket.deep_view() =~= before);
            None
        },
    };
    state.registry.put_presence(slug, bucket);
    res
}

/// Runs `f` on the bucket of `slug`, which is made empty where the slug has
/// none, and puts back the bucket that `f` returns with its result.
pub fn with_doc_presence<R, F>(state: &mut AppState, slug: &str, f: F) -> (res: R) where
    F: FnOnce(DocPresence) -> (DocPresence, R),

    requires
        old(state).wf(),
        forall|bucket: DocPresence|
            bucket.deep_view() == bucket_of(old(state)@, slug@) ==> call_requires(f, (bucket,)),
    ensures
        final(state).wf(),
        presence_only(*old(state), *final(state)),
        exists|before: DocPresence, after: DocPresence|
            before.deep_view() == bucket_of(old(state)@, slug@) && #[trigger] call_ensures(
                f,
                (before,),
                (after, res),
            ) && final(state)@.presence == old(state)@.presence.insert(slug@, after.deep_view()),
{
    let bucket = open_bucket(state, slug);
    let (after, res) = f(bucket);
    state.registry.put_presence(slug, after);
    res
}

} // verus!
