//! Decisions of the commands that take more than one request.

use vstd::prelude::*;

verus! {

/// Whether a failed attempt to create a session is made once more. A server
/// sometimes fails to start the browser and reports an unknown error with the
/// status 500; the second attempt decides. `unknown_error_status` is the
/// status of the error where it is an unknown error.
pub fn retries_new_session(unknown_error_status: Option<u16>) -> (retry: bool)
    ensures
        retry == (unknown_error_status == Some(500u16)),
{
    match unknown_error_status {
        Some(status) => status == 500,
        None => false,
    }
}

/// The id of a new session: the one at the top of the reply, and where that
/// is empty the one inside its value.
pub fn session_id_of(top: String, inner: String) -> (id: String)
    ensures
        id == if top@.len() == 0 {
            inner
        } else {
            top
        },
{
    if top.as_str().is_empty() {
        inner
    } else {
        top
    }
}

/// The handles of `current`, in order, that are not among `existing`.
pub open spec fn fresh_handles(existing: Seq<Seq<char>>, current: Seq<Seq<char>>) -> Seq<
    Seq<char>,
>
    decreases current.len(),
{
    if current.len() == 0 {
        Seq::empty()
    } else {
        let before = fresh_handles(existing, current.drop_last());
        if existing.contains(current.last()) {
            before
        } else {
            before.push(current.last())
        }
    }
}

/// The texts of a list of strings.
pub open spec fn texts(handles: Seq<String>) -> Seq<Seq<char>> {
    handles.map_values(|handle: String| handle@)
}

fn is_among(handles: &Vec<String>, wanted: &String) -> (found: bool)
    ensures
        found == texts(handles@).contains(wanted@),
{
    let mut at: usize = 0;
    while at < handles.len()
        invariant
            at <= handles.len(),
            forall|i: int| 0 <= i < at ==> texts(handles@)[i] != wanted@,
        decreases handles.len() - at,
    {
        if handles[at] == *wanted {
            assert(texts(handles@)[at as int] == wanted@);
            return true;
        }
        at += 1;
    }
    false
}

/// The handle of the window that was opened between two listings of the
/// window handles: the one handle of `current` that is not among `existing`.
/// There is none when no handle or more than one is new.
pub fn new_tab_handle(existing: &Vec<String>, current: &Vec<String>) -> (handle: Option<String>)
    ensures
        match handle {
            Some(new) => fresh_handles(texts(existing@), texts(current@)) == seq![new@],
            None => fresh_handles(texts(existing@), texts(current@)).len() != 1,
        },
{
    let mut new: Option<String> = None;
    let mut count: usize = 0;
    let mut at: usize = 0;
    while at < current.len()
        invariant
            at <= current.len(),
            count == fresh_handles(texts(existing@), texts(current@).take(at as int)).len(),
            count <= at,
            count == 1 ==> new.is_some() && fresh_handles(
                texts(existing@),
                texts(current@).take(at as int),
            ) == seq![new.unwrap()@],
        decreases current.len() - at,
    {
        let ghost before = texts(current@).take(at as int);
        let ghost now = texts(current@).take(at + 1);
        assert(now.drop_last() == before);
        if !is_among(existing, &current[at]) {
            count += 1;
            new = Some(current[at].clone());
        }
        at += 1;
    }
    assert(texts(current@).take(at as int) == texts(current@));
    if count == 1 {
        new
    } else {
        None
    }
}

} // verus!
