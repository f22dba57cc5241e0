//! Decisions of the connection that speaks HTTP.

use vstd::prelude::*;
use vstd::string::StringExecFns;

verus! {

broadcast use vstd::string::group_string_axioms;

/// The text without the slashes at its end.
pub open spec fn without_trailing_slashes(text: Seq<char>) -> Seq<char>
    decreases text.len(),
{
    if text.len() > 0 && text.last() == '/' {
        without_trailing_slashes(text.drop_last())
    } else {
        text
    }
}

/// A run of `count` slashes.
pub open spec fn slashes(count: nat) -> Seq<char> {
    Seq::new(count, |i: int| '/')
}

proof fn slashes_fall_off(text: Seq<char>, count: nat)
    requires
        text.len() == 0 || text.last() != '/',
    ensures
        without_trailing_slashes(text + slashes(count)) == text,
    decreases count,
{
    if count > 0 {
        slashes_fall_off(text, (count - 1) as nat);
        assert((text + slashes(count)).drop_last() == text + slashes((count - 1) as nat));
    }
}

/// The address of the server as requests are made to it: without a slash at
/// the end, since the path of every request begins with one.
pub fn base_url(server_url: &str) -> (url: String)
    ensures
        url@ == without_trailing_slashes(server_url@),
{
    let total: usize = server_url.unicode_len();
    let mut url = String::new();
    let mut pending: usize = 0;
    for c in it: server_url.chars()
        invariant
            it.seq() == server_url@,
            total == server_url@.len(),
            url@ + slashes(pending as nat) == server_url@.take(it.index() as int),
            url@.len() == 0 || url@.last() != '/',
            pending <= it.index(),
    {
        let ghost before = server_url@.take(it.index() as int);
        let ghost now = server_url@.take(it.index() + 1);
        assert(now == before.push(c));
        if c == '/' {
            assert(
                url@ + slashes((pending + 1) as nat) == (url@ + slashes(pending as nat)).push('/')
            );
            pending = pending + 1;
        } else {
            let ghost start = url@;
            let mut held: usize = 0;
            while held < pending
                invariant
                    held <= pending,
                    url@ == start + slashes(held as nat),
                decreases pending - held,
            {
                url.append("/");
                proof {
                    reveal_strlit("/");
                }
                held = held + 1;
            }
            url.push(c);
            pending = 0;
        }
    }
    proof {
        assert(server_url@.take(server_url@.len() as int) == server_url@);
        slashes_fall_off(url@, pending as nat);
    }
    url
}

/// What the status of a response says of a request.
#[derive(Debug, Clone, Copy, PartialEq, Eq, Structural)]
pub enum ResponseKind {
    /// The body holds what was asked for.
    Success,
    /// The body holds an error of the WebDriver server.
    Failure,
}

/// Reads the status of a response: from 200 to 399 the request has
/// succeeded, from 400 to 599 it has failed. Other statuses do not come from
/// a WebDriver server.
pub fn response_kind(status: u16) -> (kind: ResponseKind)
    requires
        200 <= status <= 599,
    ensures
        kind == if status <= 399 {
            ResponseKind::Success
        } else {
            ResponseKind::Failure
        },
{
    if status <= 399 {
        ResponseKind::Success
    } else {
        ResponseKind::Failure
    }
}

} // verus!
