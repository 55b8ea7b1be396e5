//! The alerting protocol, one step at a time.
//!
//! Raising an alert takes up to two postings to the channel: the new message,
//! and then, where the same alert was raised before, the retraction of its
//! predecessor. The functions here decide each step from the answer to the
//! one before; the caller does the posting.

use crate::alert::{
    alert_text, delete_request, is_delete_request, is_send_request, send_request, AlertKind,
    DeleteRequest, SendRequest,
};
use crate::config::AppConfig;
use crate::ledger::{
    delete_result, deleted, send_result, sent_id, Attempt, ChannelReply, LastTelegramMessage,
    NotifyError,
};
use vstd::prelude::*;

verus! {

/// What the caller has to do next.
#[derive(Debug, PartialEq, Eq)]
pub enum Step {
    /// Post the new message, then come back with the answer.
    Post { message: SendRequest },
    /// Take the older message back, then come back with the answer.
    Retract { stale: DeleteRequest },
    /// Nothing is left to do. `result` is what the alert came to; `unretracted`
    /// is why an older message stayed although it should have gone, which is
    /// worth a line in the log and nothing more.
    Done { result: Result<(), NotifyError>, unretracted: Option<NotifyError> },
}

/// Whether `step` ends the protocol with `result` and nothing to report.
pub open spec fn is_plain_end(step: Step, result: Result<(), NotifyError>) -> bool {
    step == (Step::Done { result, unretracted: None })
}

/// The first step of raising `kind`: the posting of its message, or the end
/// where the channel is switched off.
pub fn begin(config: &AppConfig, kind: AlertKind) -> (step: Step)
    ensures
        match step {
            Step::Post { message } => config.telegram_enable && is_send_request(
                message,
                *config,
                alert_text(kind),
            ),
            Step::Retract { .. } => false,
            Step::Done { .. } => !config.telegram_enable && is_plain_end(step, Ok(())),
        },
{
    match send_request(config, kind.text()) {
        Some(message) => Step::Post { message },
        None => Step::Done { result: Ok(()), unretracted: None },
    }
}

/// The step after the posting of `kind` was answered with `reply`. A posting
/// that failed ends the protocol with its error and leaves the ledger as it
/// was. One that worked is booked, and the message tracked so far is retracted
/// where it carried the same alert.
pub fn posted(
    ledger: &mut LastTelegramMessage,
    config: &AppConfig,
    kind: AlertKind,
    reply: ChannelReply,
) -> (step: Step)
    ensures
        final(ledger)@ == old(ledger)@.after(
            (Attempt { text: alert_text(kind), sent: sent_id(reply) }),
        ),
        match sent_id(reply) {
            Err(error) => step == (Step::Done { result: Err(error), unretracted: None }),
            Ok(_) => match old(ledger)@.stale(alert_text(kind)) {
                Some(id) => step is Retract && is_delete_request(step->stale, *config, id),
                None => is_plain_end(step, Ok(())),
            },
        },
{
    match ledger.settle(kind.text(), send_result(reply)) {
        Err(error) => Step::Done { result: Err(error), unretracted: None },
        Ok(Some(id)) => Step::Retract { stale: delete_request(config, id) },
        Ok(None) => Step::Done { result: Ok(()), unretracted: None },
    }
}

/// The end of the protocol after the retraction was answered with `reply`. The
/// alert is out either way; a retraction that failed is only reported.
pub fn retracted(reply: ChannelReply) -> (step: Step)
    ensures
        step == (Step::Done {
            result: Ok(()),
            unretracted: match deleted(reply) {
                Ok(_) => None,
                Err(error) => Some(error),
            },
        }),
{
    match delete_result(reply) {
        Ok(_) => Step::Done { result: Ok(()), unretracted: None },
        Err(error) => Step::Done { result: Ok(()), unretracted: Some(error) },
    }
}

} // verus!
