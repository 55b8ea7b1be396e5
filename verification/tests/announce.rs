use proxy_monitor::alert::{AlertKind, DeleteRequest, SendRequest};
use proxy_monitor::announce::{begin, posted, retracted, Step};
use proxy_monitor::config::AppConfig;
use proxy_monitor::ledger::{
    ChannelReply, HttpResponse, HttpResult, LastTelegramMessage, NotifyError,
};

fn settings(enabled: bool) -> AppConfig {
    AppConfig {
        telegram_bot_id: String::from("42:key"),
        telegram_group_id: String::from("-77"),
        telegram_group_thread_id: String::from("3"),
        telegram_sender: String::from("bot"),
        telegram_receiver: String::from("team"),
        telegram_enable: enabled,
        telegram_env: String::from("staging"),
        max_success_timeout: 120,
        proxy_request_interval: 10,
        proxy_addr: String::from("http://proxy.example:3128"),
        download_urls: Vec::new(),
        proxy_acc: Vec::new(),
    }
}

fn stored_as(message_id: i64) -> ChannelReply {
    ChannelReply::Accepted {
        body: Some(HttpResponse { ok: true, result: HttpResult { message_id } }),
    }
}

fn done() -> Step {
    Step::Done { result: Ok(()), unretracted: None }
}

fn retraction_of(message_id: i64) -> Step {
    Step::Retract {
        stale: DeleteRequest {
            url: String::from("https://api.telegram.org/bot42:key/deleteMessage"),
            chat_id: String::from("-77"),
            message_id,
        },
    }
}

#[test]
fn alert_begins_with_its_posting() {
    assert_eq!(
        begin(&settings(true), AlertKind::Down),
        Step::Post {
            message: SendRequest {
                url: String::from("https://api.telegram.org/bot42:key/sendMessage"),
                chat_id: String::from("-77"),
                message_thread_id: String::from("3"),
                text: String::from(
                    "\nFrom: bot\nTo: team \nMessage:(staging) proxy server seems down"
                ),
            },
        }
    );
}

#[test]
fn switched_off_channel_ends_at_once() {
    for kind in [AlertKind::Startup, AlertKind::Recovered, AlertKind::Down, AlertKind::Shutdown] {
        assert_eq!(begin(&settings(false), kind), done());
    }
}

#[test]
fn same_alert_twice_posts_twice_and_retracts_once() {
    let config = settings(true);
    let mut ledger = LastTelegramMessage::new();
    let mut posts = 0;
    let mut retractions = Vec::new();
    for id in [500, 501] {
        assert!(matches!(begin(&config, AlertKind::Down), Step::Post { .. }));
        posts += 1;
        match posted(&mut ledger, &config, AlertKind::Down, stored_as(id)) {
            Step::Retract { stale } => {
                retractions.push(stale.message_id);
                assert_eq!(retracted(ChannelReply::Accepted { body: None }), done());
            }
            step => assert_eq!(step, done()),
        }
    }
    assert_eq!(posts, 2);
    assert_eq!(retractions, vec![500]);
    assert_eq!(ledger.id(), 501);
    assert_eq!(ledger.text(), "proxy server seems down");
}

#[test]
fn different_alerts_post_twice_and_retract_nothing() {
    let config = settings(true);
    let mut ledger = LastTelegramMessage::new();
    assert_eq!(posted(&mut ledger, &config, AlertKind::Down, stored_as(500)), done());
    assert_eq!(posted(&mut ledger, &config, AlertKind::Recovered, stored_as(501)), done());
    assert_eq!(ledger.id(), 501);
    assert_eq!(ledger.text(), "recovered after failure");
}

#[test]
fn repeated_alert_retracts_its_predecessor() {
    let config = settings(true);
    let mut ledger = LastTelegramMessage::new();
    assert_eq!(posted(&mut ledger, &config, AlertKind::Startup, stored_as(11)), done());
    assert_eq!(
        posted(&mut ledger, &config, AlertKind::Startup, stored_as(12)),
        retraction_of(11)
    );
    assert_eq!(
        posted(&mut ledger, &config, AlertKind::Startup, stored_as(13)),
        retraction_of(12)
    );
    assert_eq!(posted(&mut ledger, &config, AlertKind::Down, stored_as(14)), done());
    assert_eq!(posted(&mut ledger, &config, AlertKind::Startup, stored_as(15)), done());
}

#[test]
fn failed_posting_ends_with_its_error() {
    let config = settings(true);
    let mut ledger = LastTelegramMessage::new();
    assert_eq!(posted(&mut ledger, &config, AlertKind::Down, stored_as(21)), done());
    assert_eq!(
        posted(&mut ledger, &config, AlertKind::Down, ChannelReply::Unreachable),
        Step::Done { result: Err(NotifyError::Transport), unretracted: None }
    );
    assert_eq!(
        posted(
            &mut ledger,
            &config,
            AlertKind::Down,
            ChannelReply::Refused { detail: Some(String::from("Too Many Requests")) }
        ),
        Step::Done {
            result: Err(NotifyError::Rejected { detail: String::from("Too Many Requests") }),
            unretracted: None,
        }
    );
    assert_eq!(
        posted(&mut ledger, &config, AlertKind::Down, ChannelReply::Accepted { body: None }),
        Step::Done { result: Err(NotifyError::Malformed), unretracted: None }
    );
    assert_eq!(ledger.id(), 21);
    assert_eq!(ledger.text(), "proxy server seems down");
    assert_eq!(
        posted(&mut ledger, &config, AlertKind::Down, stored_as(22)),
        retraction_of(21)
    );
}

#[test]
fn failed_retraction_does_not_fail_the_alert() {
    assert_eq!(
        retracted(ChannelReply::Refused { detail: Some(String::from("message not found")) }),
        Step::Done {
            result: Ok(()),
            unretracted: Some(NotifyError::Rejected {
                detail: String::from("message not found"),
            }),
        }
    );
    assert_eq!(
        retracted(ChannelReply::Unreachable),
        Step::Done { result: Ok(()), unretracted: Some(NotifyError::Transport) }
    );
    assert_eq!(retracted(stored_as(1)), done());
}
