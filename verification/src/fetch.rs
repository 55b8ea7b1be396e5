//! One proxied fetch: which target it goes to, and how its reply is judged.

use rand::Rng;
use vstd::prelude::*;

verus! {

/// Seconds after which a fetch that hangs is given up.
pub const REQUEST_TIMEOUT_SECONDS: u64 = 30;

/// Seconds that an idle connection to the proxy is kept for reuse.
pub const POOL_IDLE_TIMEOUT_SECONDS: u64 = 90;

/// Idle connections kept per host, at most.
pub const POOL_MAX_IDLE_PER_HOST: usize = 10;

/// What one proxied GET came to.
#[derive(Debug, Clone, PartialEq, Eq)]
pub enum FetchOutcome {
    /// A reply with a 2xx status arrived; `bytes` is the length of its body.
    Success { bytes: usize },
    /// The request did not get through, or the reply was not a 2xx one.
    Failure { reason: String },
}

/// What the transport reports of one GET, before it is judged.
#[derive(Debug, Clone, PartialEq, Eq)]
pub enum FetchReply {
    /// No reply arrived: the connection, the tunnel or the timeout failed.
    Unreachable { detail: String },
    /// A reply arrived with this status code and a body of `bytes` bytes.
    Answered { status: u16, bytes: usize },
}

/// A status code of the 2xx class.
pub open spec fn is_success_status(status: u16) -> bool {
    200 <= status < 300
}

/// Whether a status code is of the 2xx class.
pub fn has_success_status(status: u16) -> (yes: bool)
    ensures
        yes == is_success_status(status),
{
    200 <= status && status < 300
}

/// A fetch outcome as a plain value: the reason as a sequence of characters.
pub enum OutcomeModel {
    Success { bytes: usize },
    Failure { reason: Seq<char> },
}

impl View for FetchOutcome {
    type V = OutcomeModel;

    open spec fn view(&self) -> OutcomeModel {
        match *self {
            FetchOutcome::Success { bytes } => OutcomeModel::Success { bytes },
            FetchOutcome::Failure { reason } => OutcomeModel::Failure { reason: reason@ },
        }
    }
}

/// The reason recorded for a reply whose status is outside the 2xx class.
pub open spec fn bad_status_reason() -> Seq<char> {
    "unexpected status"@
}

/// The judgement of a reply: a 2xx answer is a success and keeps its byte
/// count; a silent transport or any other status is a failure.
pub open spec fn outcome_of(reply: FetchReply) -> OutcomeModel {
    match reply {
        FetchReply::Unreachable { detail } => OutcomeModel::Failure { reason: detail@ },
        FetchReply::Answered { status, bytes } => if is_success_status(status) {
            OutcomeModel::Success { bytes }
        } else {
            OutcomeModel::Failure { reason: bad_status_reason() }
        },
    }
}

/// Judges the reply to one GET. Nothing is retried here: a failure goes back to
/// the worker, which backs off.
pub fn classify_fetch(reply: FetchReply) -> (outcome: FetchOutcome)
    ensures
        outcome@ == outcome_of(reply),
{
    match reply {
        FetchReply::Unreachable { detail } => FetchOutcome::Failure { reason: detail },
        FetchReply::Answered { status, bytes } => {
            if has_success_status(status) {
                FetchOutcome::Success { bytes }
            } else {
                FetchOutcome::Failure { reason: String::from_str("unexpected status") }
            }
        },
    }
}

/// `rand::Rng::gen_range` on `rand::thread_rng()`, over the half-open range
/// from zero to `len`. The generator draws from that range, so the index lies
/// below `len`; which index comes is left open. An empty range makes it panic,
/// hence the demand on `len`. The thread's generator is seeded from the
/// system on first use and gives up only if the system has no randomness to
/// offer.
#[verifier::external_body]
fn random_index(len: usize) -> (index: usize)
    requires
        len > 0,
    ensures
        index < len,
{
    rand::thread_rng().gen_range(0..len)
}

/// The candidate at `index`, if there is one.
pub fn url_at(urls: &Vec<String>, index: usize) -> (url: Option<&String>)
    ensures
        index < urls.len() ==> url == Some(&urls[index as int]),
        index >= urls.len() ==> url is None,
{
    if index < urls.len() {
        Some(&urls[index])
    } else {
        None
    }
}

/// Picks the target of the next fetch at random among the candidates, so that
/// the load spreads over them. With no candidate there is nothing to pick.
pub fn pick_download_url(urls: &Vec<String>) -> (url: Option<&String>)
    ensures
        urls.len() == 0 <==> url is None,
        url is Some ==> exists|i: int| 0 <= i < urls.len() && url == Some(&#[trigger] urls[i]),
{
    if urls.len() == 0 {
        None
    } else {
        let index: usize = random_index(urls.len());
        url_at(urls, index)
    }
}

impl FetchOutcome {
    /// Whether the fetch counted as a success.
    pub fn succeeded(&self) -> (yes: bool)
        ensures
            yes == (self@ is Success),
    {
        match self {
            FetchOutcome::Success { .. } => true,
            FetchOutcome::Failure { .. } => false,
        }
    }
}

} // verus!
