//! The answers to the HTTP requests: the state of a document, and a change
//! of its password.

use vstd::prelude::*;
use crate::auth::{
    authorized_spec, extract_password_from_headers, header_password_spec, is_authorized,
};
use crate::document::DocView;
use crate::state::{same_settings, AppState};
use crate::storage::{hash_password, password_hash_spec, slug_rel_spec, slug_to_rel_path};
use crate::text::str_eq;
use crate::types::{SnapshotResp, SnapshotRespView};

verus! {

/// The query of a request for the state of a document.
#[derive(Debug, PartialEq, Eq)]
pub struct SnapshotQuery {
    pub slug: String,
    pub password: Option<String>,
}

/// The body of a request to change the password of a document.
#[derive(Debug, PartialEq, Eq)]
pub struct PasswordUpdateReq {
    pub slug: String,
    pub current_password: Option<String>,
    pub new_password: Option<String>,
}

/// Why a request was refused.
#[derive(Debug, Clone, Copy, PartialEq, Eq)]
pub enum HttpError {
    /// The slug is invalid, or no document is loaded for it: status 400.
    BadRequest,
    /// The password is missing or wrong: status 401.
    Unauthorized,
}

/// The answer to a health check.
pub fn health() -> (res: &'static str)
    ensures
        res@ == "ok"@,
{
    "ok"
}

/// A text that may be missing, as the empty text where it is.
pub open spec fn or_empty(text: Option<Seq<char>>) -> Seq<char> {
    match text {
        Some(t) => t,
        None => Seq::empty(),
    }
}

/// Whether `current` allows a change of the password of a document with the
/// hash `stored`: it hashes to it, or it is empty where none is stored.
pub open spec fn may_change_password(stored: Option<Seq<char>>, current: Seq<char>) -> bool {
    match stored {
        Some(hash) => password_hash_spec(current) == hash,
        None => current.len() == 0,
    }
}

/// The hash to store for a new password; none for the empty password.
pub open spec fn new_hash_spec(new_password: Seq<char>) -> Option<Seq<char>> {
    if new_password.len() == 0 {
        None
    } else {
        Some(password_hash_spec(new_password))
    }
}

/// Whether a slug is valid and has a loaded document.
pub open spec fn serves(state: AppState, slug: Seq<char>) -> bool {
    slug_rel_spec(slug) is Ok && state@.docs.contains_key(slug)
}

/// Whether the document of `slug` is loaded and the slug is valid.
pub fn is_served(state: &AppState, slug: &str) -> (res: bool)
    requires
        state.wf(),
    ensures
        res == serves(*state, slug@),
{
    match slug_to_rel_path(slug) {
        Ok(_) => state.registry.has_doc(slug),
        Err(_) => false,
    }
}

/// Changes the password of a document. The current password has to hash to
/// what is stored, or to be empty or missing where nothing is stored. An
/// empty or missing new password clears the hash. Returns the hash that is
/// to be kept on disk from now on.
pub fn update_password(state: &mut AppState, req: PasswordUpdateReq) -> (res: Result<
    Option<String>,
    HttpError,
>)
    requires
        old(state).wf(),
    ensures
        final(state).wf(),
        same_settings(*old(state), *final(state)),
        final(state)@.presence == old(state)@.presence,
        final(state)@.recent == old(state)@.recent,
        !serves(*old(state), req.slug@) ==> res == Err::<Option<String>, HttpError>(
            HttpError::BadRequest,
        ),
        serves(*old(state), req.slug@) && !may_change_password(
            old(state)@.docs[req.slug@].password_hash,
            or_empty(req.current_password.deep_view()),
        ) ==> res == Err::<Option<String>, HttpError>(HttpError::Unauthorized),
        res is Ok <==> serves(*old(state), req.slug@) && may_change_password(
            old(state)@.docs[req.slug@].password_hash,
            or_empty(req.current_password.deep_view()),
        ),
        res matches Ok(hash) ==> hash.deep_view() == new_hash_spec(
            or_empty(req.new_password.deep_view()),
        ) && final(state)@.docs == old(state)@.docs.insert(
            req.slug@,
            DocView { password_hash: hash.deep_view(), ..old(state)@.docs[req.slug@] },
        ),
        res is Err ==> final(state)@.docs == old(state)@.docs,
{
    let slug = req.slug.as_str();
    if !is_served(state, slug) {
        return Err(HttpError::BadRequest);
    }
    let current = match &req.current_password {
        Some(text) => text.as_str(),
        None => "",
    };
    let new_password = match &req.new_password {
        Some(text) => text.as_str(),
        None => "",
    };
    proof {
        reveal_strlit("");
    }
    let mut doc = match state.registry.take_doc(slug) {
        Some(doc) => doc,
        None => {
            return Err(HttpError::BadRequest);
        },
    };
    let allowed = match &doc.password_hash {
        Some(expected) => str_eq(hash_password(current).as_str(), expected.as_str()),
        None => current.unicode_len() == 0,
    };
    if !allowed {
        state.registry.put_doc(slug, doc);
        return Err(HttpError::Unauthorized);
    }
    let new_hash = if new_password.unicode_len() == 0 {
        None
    } else {
        Some(hash_password(new_password))
    };
    doc.password_hash = match &new_hash {
        Some(hash) => Some(hash.clone()),
        None => None,
    };
    state.registry.put_doc(slug, doc);
    Ok(new_hash)
}

/// The password that a request for the state of a document carries: the one
/// of its query, else the one of its `Authorization` header.
pub open spec fn snapshot_password(q: SnapshotQuery, header: Option<Seq<char>>) -> Option<
    Seq<char>,
> {
    match q.password {
        Some(p) => Some(p@),
        None => header_password_spec(header, q.slug@),
    }
}

/// The state of a document, for a request that carries its password.
/// `authorization` is the value of the `Authorization` header, if any.
pub fn get_snapshot(
    state: &AppState,
    q: SnapshotQuery,
    authorization: Option<&str>,
) -> (res: Result<SnapshotResp, HttpError>)
    requires
        state.wf(),
    ensures
        !serves(*state, q.slug@) ==> res == Err::<SnapshotResp, HttpError>(HttpError::BadRequest),
        serves(*state, q.slug@) && !authorized_spec(
            state@.docs[q.slug@].password_hash,
            snapshot_password(q, authorization.deep_view()),
        ) ==> res == Err::<SnapshotResp, HttpError>(HttpError::Unauthorized),
        res is Ok <==> serves(*state, q.slug@) && authorized_spec(
            state@.docs[q.slug@].password_hash,
            snapshot_password(q, authorization.deep_view()),
        ),
        res matches Ok(resp) ==> resp.deep_view() == (SnapshotRespView {
            slug: q.slug@,
            rev: state@.docs[q.slug@].rev,
            content: state@.docs[q.slug@].content,
        }),
{
    if !is_served(state, q.slug.as_str()) {
        return Err(HttpError::BadRequest);
    }
    let doc = match state.registry.doc(q.slug.as_str()) {
        Some(doc) => doc,
        None => {
            return Err(HttpError::BadRequest);
        },
    };
    let provided = match q.password {
        Some(p) => Some(p),
        None => extract_password_from_headers(authorization, q.slug.as_str()),
    };
    let allowed = match &provided {
        Some(p) => is_authorized(doc, Some(p.as_str())),
        None => is_authorized(doc, None),
    };
    if !allowed {
        return Err(HttpError::Unauthorized);
    }
    Ok(SnapshotResp { slug: q.slug, rev: doc.rev, content: doc.content.clone() })
}

} // verus!
