//! The record of the last alert that went out, and what the channel answered.

use vstd::prelude::*;

verus! {

/// The part of the channel's answer that describes the message it stored.
#[derive(Debug, Clone, Copy, PartialEq, Eq, Structural)]
pub struct HttpResult {
    pub message_id: i64,
}

/// The channel's answer to a message that it accepted.
#[derive(Debug, Clone, Copy, PartialEq, Eq, Structural)]
pub struct HttpResponse {
    pub ok: bool,
    pub result: HttpResult,
}

/// Why a message could not be sent or taken back.
#[derive(Debug, Clone, PartialEq, Eq)]
pub enum NotifyError {
    /// The request did not get through, or the answer could not be read.
    Transport,
    /// The channel accepted the message but its answer made no sense.
    Malformed,
    /// The channel refused, with these words.
    Rejected { detail: String },
}

/// What came back from one posting to the channel.
#[derive(Debug, Clone, PartialEq, Eq)]
pub enum ChannelReply {
    /// Nothing came back.
    Unreachable,
    /// A 2xx answer, with its body where that could be understood.
    Accepted { body: Option<HttpResponse> },
    /// Any other answer, with its text where that could be read.
    Refused { detail: Option<String> },
}

/// What a refusal or a silent channel amounts to.
pub open spec fn failure_of(reply: ChannelReply) -> NotifyError
    recommends
        !(reply is Accepted),
{
    match reply {
        ChannelReply::Refused { detail: Some(detail) } => NotifyError::Rejected { detail },
        _ => NotifyError::Transport,
    }
}

/// The id under which the channel stored a message, read off its answer.
pub open spec fn sent_id(reply: ChannelReply) -> Result<i64, NotifyError> {
    match reply {
        ChannelReply::Accepted { body: Some(body) } => Ok(body.result.message_id),
        ChannelReply::Accepted { body: None } => Err(NotifyError::Malformed),
        _ => Err(failure_of(reply)),
    }
}

/// Whether the channel took a message back, read off its answer.
pub open spec fn deleted(reply: ChannelReply) -> Result<(), NotifyError> {
    match reply {
        ChannelReply::Accepted { .. } => Ok(()),
        _ => Err(failure_of(reply)),
    }
}

/// Reads the answer to a sent message: the new message's id, or why there is
/// none.
pub fn send_result(reply: ChannelReply) -> (sent: Result<i64, NotifyError>)
    ensures
        sent == sent_id(reply),
{
    match reply {
        ChannelReply::Accepted { body: Some(body) } => Ok(body.result.message_id),
        ChannelReply::Accepted { body: None } => Err(NotifyError::Malformed),
        ChannelReply::Refused { detail: Some(detail) } => Err(NotifyError::Rejected { detail }),
        ChannelReply::Refused { detail: None } => Err(NotifyError::Transport),
        ChannelReply::Unreachable => Err(NotifyError::Transport),
    }
}

/// Reads the answer to a request to take a message back.
pub fn delete_result(reply: ChannelReply) -> (done: Result<(), NotifyError>)
    ensures
        done == deleted(reply),
{
    match reply {
        ChannelReply::Accepted { .. } => Ok(()),
        ChannelReply::Refused { detail: Some(detail) } => Err(NotifyError::Rejected { detail }),
        ChannelReply::Refused { detail: None } => Err(NotifyError::Transport),
        ChannelReply::Unreachable => Err(NotifyError::Transport),
    }
}

/// The ledger as a plain value.
pub struct LedgerModel {
    pub id: i64,
    pub text: Seq<char>,
}

/// One call of the alerting protocol: the alert's text and what sending it
/// came to.
pub struct Attempt {
    pub text: Seq<char>,
    pub sent: Result<i64, NotifyError>,
}

impl LedgerModel {
    /// The ledger of a monitor that has sent nothing yet.
    pub open spec fn empty() -> LedgerModel {
        LedgerModel { id: -1i64, text: Seq::empty() }
    }

    /// The id of the tracked message, where it is one that the channel can have
    /// given out.
    pub open spec fn last_message_id(self) -> Option<i64> {
        if self.id > 0 {
            Some(self.id)
        } else {
            None
        }
    }

    /// The message that has to go once `text` has been sent anew: the tracked
    /// one, if it says the same and has a valid id. A message with another text
    /// stays, as the history of what changed.
    pub open spec fn stale(self, text: Seq<char>) -> Option<i64> {
        if self.text == text {
            self.last_message_id()
        } else {
            None
        }
    }

    /// The ledger after one attempt: it tracks the new message if one was sent,
    /// and is untouched if none was.
    pub open spec fn after(self, attempt: Attempt) -> LedgerModel {
        match attempt.sent {
            Ok(id) => LedgerModel { id, text: attempt.text },
            Err(_) => self,
        }
    }

    /// The message that one attempt makes the caller take back, if any.
    pub open spec fn retracted(self, attempt: Attempt) -> Option<i64> {
        match attempt.sent {
            Ok(_) => self.stale(attempt.text),
            Err(_) => None,
        }
    }

    /// The ledger after a run of attempts, in their order.
    pub open spec fn after_all(self, attempts: Seq<Attempt>) -> LedgerModel
        decreases attempts.len(),
    {
        if attempts.len() == 0 {
            self
        } else {
            self.after_all(attempts.drop_last()).after(attempts.last())
        }
    }

    /// How many messages a run of attempts makes the caller take back.
    pub open spec fn deletions(self, attempts: Seq<Attempt>) -> nat
        decreases attempts.len(),
    {
        if attempts.len() == 0 {
            0
        } else {
            let before = self.after_all(attempts.drop_last());
            let here: nat = if before.retracted(attempts.last()) is Some {
                1
            } else {
                0
            };
            self.deletions(attempts.drop_last()) + here
        }
    }
}

/// How many messages a run of attempts sends to the channel: one each.
pub open spec fn sendings(attempts: Seq<Attempt>) -> nat {
    attempts.len()
}

/// The last attempt of a run that got its message out, if any did.
pub open spec fn last_sent(attempts: Seq<Attempt>) -> Option<Attempt>
    decreases attempts.len(),
{
    if attempts.len() == 0 {
        None
    } else if attempts.last().sent is Ok {
        Some(attempts.last())
    } else {
        last_sent(attempts.drop_last())
    }
}

/// The single most recently sent alert: its id at the channel and its text.
/// A repeated alert replaces its predecessor there; a new one leaves the old in
/// place.
#[derive(Debug, Clone)]
pub struct LastTelegramMessage {
    id: i64,
    text: String,
}

impl View for LastTelegramMessage {
    type V = LedgerModel;

    closed spec fn view(&self) -> LedgerModel {
        LedgerModel { id: self.id, text: self.text@ }
    }
}

impl LastTelegramMessage {
    /// The ledger at startup: no message, no text.
    pub fn new() -> (ledger: Self)
        ensures
            ledger@ == LedgerModel::empty(),
    {
        LastTelegramMessage { id: -1, text: String::new() }
    }

    /// The id of the tracked message; not positive while there is none.
    pub fn id(&self) -> (id: i64)
        ensures
            id == self@.id,
    {
        self.id
    }

    /// The text of the tracked message.
    pub fn text(&self) -> (text: &str)
        ensures
            text@ == self@.text,
    {
        self.text.as_str()
    }

    /// Books the result of sending `text`. A failed send is handed back and
    /// leaves the ledger as it was. After a send that worked the ledger tracks
    /// the new message, and the caller is told which older message to take
    /// back, if any: the one tracked so far, where it said the same.
    pub fn settle(&mut self, text: &str, sent: Result<i64, NotifyError>) -> (outcome: Result<
        Option<i64>,
        NotifyError,
    >)
        ensures
            final(self)@ == old(self)@.after((Attempt { text: text@, sent })),
            outcome == match sent {
                Ok(_) => Ok::<Option<i64>, NotifyError>(old(self)@.stale(text@)),
                Err(error) => Err(error),
            },
            outcome is Ok ==> outcome->Ok_0 == old(self)@.retracted((Attempt { text: text@, sent })),
    {
        match sent {
            Err(error) => Err(error),
            Ok(id) => {
                let text = String::from_str(text);
                let stale = if self.text == text && self.id > 0 {
                    Some(self.id)
                } else {
                    None
                };
                self.id = id;
                self.text = text;
                Ok(stale)
            },
        }
    }
}

/// After any run of attempts the ledger holds the id and the text of the last
/// message that was sent, whatever it held before; where nothing was sent it is
/// unchanged.
pub proof fn lemma_ledger_holds_last_sent(ledger: LedgerModel, attempts: Seq<Attempt>)
    ensures
        ledger.after_all(attempts) == match last_sent(attempts) {
            Some(attempt) => LedgerModel { id: attempt.sent->Ok_0, text: attempt.text },
            None => ledger,
        },
    decreases attempts.len(),
{
    if attempts.len() > 0 {
        lemma_ledger_holds_last_sent(ledger, attempts.drop_last());
    }
}

/// One attempt that gets its message out leaves the ledger holding that
/// message's id and text, whatever it held before.
pub proof fn lemma_sent_is_tracked(ledger: LedgerModel, text: Seq<char>, id: i64)
    ensures
        ledger.after((Attempt { text, sent: Ok(id) })) == (LedgerModel { id, text }),
{
}

/// The same text sent twice in a row, on a ledger that did not track it
/// already: two messages go out and exactly one is taken back, the first of the
/// two.
pub proof fn lemma_repeat_retracts_first(
    ledger: LedgerModel,
    text: Seq<char>,
    first: i64,
    second: i64,
)
    requires
        first > 0,
        ledger.stale(text) is None,
    ensures
        ({
            let run = seq![Attempt { text, sent: Ok(first) }, Attempt { text, sent: Ok(second) }];
            &&& sendings(run) == 2
            &&& ledger.deletions(run) == 1
            &&& ledger.retracted(run[0]) is None
            &&& ledger.after(run[0]).retracted(run[1]) == Some(first)
            &&& ledger.after_all(run) == (LedgerModel { id: second, text })
        }),
{
    let run = seq![Attempt { text, sent: Ok(first) }, Attempt { text, sent: Ok(second) }];
    lemma_two_attempts(ledger, run);
}

/// Two different texts sent in a row, on a ledger that did not track the first
/// already: two messages go out, none is taken back, and the ledger ends on the
/// second text.
pub proof fn lemma_change_retracts_nothing(
    ledger: LedgerModel,
    first_text: Seq<char>,
    second_text: Seq<char>,
    first: i64,
    second: i64,
)
    requires
        first_text != second_text,
        ledger.stale(first_text) is None,
    ensures
        ({
            let run = seq![
                Attempt { text: first_text, sent: Ok(first) },
                Attempt { text: second_text, sent: Ok(second) },
            ];
            &&& sendings(run) == 2
            &&& ledger.deletions(run) == 0
            &&& ledger.after_all(run) == (LedgerModel { id: second, text: second_text })
        }),
{
    let run = seq![
        Attempt { text: first_text, sent: Ok(first) },
        Attempt { text: second_text, sent: Ok(second) },
    ];
    lemma_two_attempts(ledger, run);
}

/// The run in which `text` is sent once for each of `ids`, every time with
/// success.
pub open spec fn repeats(text: Seq<char>, ids: Seq<i64>) -> Seq<Attempt> {
    Seq::new(ids.len(), |i: int| Attempt { text, sent: Ok(ids[i]) })
}

/// However often one alert is raised again, only its newest message stays: on a
/// ledger that did not track the text already, every sending but the last is
/// taken back by the one after it.
pub proof fn lemma_repeats_leave_one(ledger: LedgerModel, text: Seq<char>, ids: Seq<i64>)
    requires
        ids.len() > 0,
        forall|i: int| 0 <= i < ids.len() ==> ids[i] > 0,
        ledger.stale(text) is None,
    ensures
        ledger.deletions(repeats(text, ids)) + 1 == sendings(repeats(text, ids)),
        ledger.after_all(repeats(text, ids)) == (LedgerModel { id: ids.last(), text }),
    decreases ids.len(),
{
    let run = repeats(text, ids);
    assert(run.drop_last() =~= repeats(text, ids.drop_last()));
    if ids.len() == 1 {
        assert(ledger.after_all(run.drop_last()) == ledger);
        assert(ledger.deletions(run.drop_last()) == 0);
    } else {
        lemma_repeats_leave_one(ledger, text, ids.drop_last());
    }
}

/// A run of two attempts, written out.
proof fn lemma_two_attempts(ledger: LedgerModel, run: Seq<Attempt>)
    requires
        run.len() == 2,
    ensures
        ledger.after_all(run) == ledger.after(run[0]).after(run[1]),
        ledger.deletions(run) == (if ledger.retracted(run[0]) is Some {
            1nat
        } else {
            0nat
        }) + (if ledger.after(run[0]).retracted(run[1]) is Some {
            1nat
        } else {
            0nat
        }),
{
    let head = run.drop_last();
    assert(head.len() == 1);
    assert(head.last() == run[0]);
    assert(head.drop_last().len() == 0);
    assert(ledger.after_all(head.drop_last()) == ledger);
    assert(ledger.after_all(head) == ledger.after(run[0]));
    assert(ledger.deletions(head.drop_last()) == 0);
    assert(ledger.deletions(head) == if ledger.retracted(run[0]) is Some {
        1nat
    } else {
        0nat
    });
    assert(run.last() == run[1]);
}

} // verus!
