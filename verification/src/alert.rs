//! The alerts that the monitor raises and the messages that carry them.

use crate::config::AppConfig;
use vstd::prelude::*;

verus! {

/// The four things the monitor has to say.
#[derive(Clone, Copy, Debug, PartialEq, Eq, Structural)]
pub enum AlertKind {
    /// The monitor has started.
    Startup,
    /// A fetch succeeded after the fleet had counted as down.
    Recovered,
    /// No fetch has succeeded for longer than the configured timeout.
    Down,
    /// The monitor is about to exit.
    Shutdown,
}

/// The wording of each alert. The ledger tells alerts apart by it.
pub open spec fn alert_text(kind: AlertKind) -> Seq<char> {
    match kind {
        AlertKind::Startup => "client bot is running"@,
        AlertKind::Recovered => "recovered after failure"@,
        AlertKind::Down => "proxy server seems down"@,
        AlertKind::Shutdown => "client bot shutdown"@,
    }
}

impl AlertKind {
    /// The wording of this alert.
    pub fn text(&self) -> (text: &'static str)
        ensures
            text@ == alert_text(*self),
    {
        match self {
            AlertKind::Startup => "client bot is running",
            AlertKind::Recovered => "recovered after failure",
            AlertKind::Down => "proxy server seems down",
            AlertKind::Shutdown => "client bot shutdown",
        }
    }
}

/// No two alerts share their wording, so comparing texts compares kinds.
pub proof fn lemma_alert_texts_differ(a: AlertKind, b: AlertKind)
    ensures
        alert_text(a) == alert_text(b) <==> a == b,
{
    reveal_strlit("client bot is running");
    reveal_strlit("recovered after failure");
    reveal_strlit("proxy server seems down");
    reveal_strlit("client bot shutdown");
    if a != b && alert_text(a) == alert_text(b) {
        assert(alert_text(a).len() == alert_text(b).len());
        assert(alert_text(a)[0] == alert_text(b)[0]);
    }
}

/// The text of a message as the channel shows it: who sends, who is addressed,
/// the environment's tag, and the alert itself.
pub open spec fn message_body(
    sender: Seq<char>,
    receiver: Seq<char>,
    env: Seq<char>,
    message: Seq<char>,
) -> Seq<char> {
    "\nFrom: "@ + sender + "\nTo: "@ + receiver + " \nMessage:("@ + env + ") "@ + message
}

/// The address of one method of the channel's bot interface.
pub open spec fn bot_endpoint(bot_id: Seq<char>, method: Seq<char>) -> Seq<char> {
    "https://api.telegram.org/bot"@ + bot_id + "/"@ + method
}

/// Lays out the text of a message for the channel.
pub fn format_message(config: &AppConfig, message: &str) -> (body: String)
    ensures
        body@ == message_body(
            config.telegram_sender@,
            config.telegram_receiver@,
            config.telegram_env@,
            message@,
        ),
{
    let mut body = String::from_str("\nFrom: ");
    body.append(config.telegram_sender.as_str());
    body.append("\nTo: ");
    body.append(config.telegram_receiver.as_str());
    body.append(" \nMessage:(");
    body.append(config.telegram_env.as_str());
    body.append(") ");
    body.append(message);
    body
}

/// Builds the address of the bot method `method`.
fn endpoint(config: &AppConfig, method: &str) -> (url: String)
    ensures
        url@ == bot_endpoint(config.telegram_bot_id@, method@),
{
    let mut url = String::from_str("https://api.telegram.org/bot");
    url.append(config.telegram_bot_id.as_str());
    url.append("/");
    url.append(method);
    url
}

/// What has to be posted to the channel to show one message.
#[derive(Debug, Clone, PartialEq, Eq)]
pub struct SendRequest {
    pub url: String,
    pub chat_id: String,
    pub message_thread_id: String,
    pub text: String,
}

/// What has to be posted to the channel to take one message back.
#[derive(Debug, Clone, PartialEq, Eq)]
pub struct DeleteRequest {
    pub url: String,
    pub chat_id: String,
    pub message_id: i64,
}

/// Whether `request` is the posting that shows `message` under `config`.
pub open spec fn is_send_request(
    request: SendRequest,
    config: AppConfig,
    message: Seq<char>,
) -> bool {
    &&& request.url@ == bot_endpoint(config.telegram_bot_id@, "sendMessage"@)
    &&& request.chat_id@ == config.telegram_group_id@
    &&& request.message_thread_id@ == config.telegram_group_thread_id@
    &&& request.text@ == message_body(
        config.telegram_sender@,
        config.telegram_receiver@,
        config.telegram_env@,
        message,
    )
}

/// Whether `request` is the posting that takes message `id` back under `config`.
pub open spec fn is_delete_request(request: DeleteRequest, config: AppConfig, id: i64) -> bool {
    &&& request.url@ == bot_endpoint(config.telegram_bot_id@, "deleteMessage"@)
    &&& request.chat_id@ == config.telegram_group_id@
    &&& request.message_id == id
}

/// The posting that shows `message`, or nothing where the channel is switched
/// off.
pub fn send_request(config: &AppConfig, message: &str) -> (request: Option<SendRequest>)
    ensures
        match request {
            Some(r) => config.telegram_enable && is_send_request(r, *config, message@),
            None => !config.telegram_enable,
        },
{
    if !config.telegram_enable {
        return None;
    }
    Some(
        SendRequest {
            url: endpoint(config, "sendMessage"),
            chat_id: config.telegram_group_id.clone(),
            message_thread_id: config.telegram_group_thread_id.clone(),
            text: format_message(config, message),
        },
    )
}

/// The posting that takes the message `id` back.
pub fn delete_request(config: &AppConfig, id: i64) -> (request: DeleteRequest)
    ensures
        is_delete_request(request, *config, id),
{
    DeleteRequest {
        url: endpoint(config, "deleteMessage"),
        chat_id: config.telegram_group_id.clone(),
        message_id: id,
    }
}

} // verus!
