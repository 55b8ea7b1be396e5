use proxy_monitor::ledger::{
    delete_result, send_result, ChannelReply, HttpResponse, HttpResult, LastTelegramMessage,
    NotifyError,
};

fn accepted(message_id: i64) -> ChannelReply {
    ChannelReply::Accepted {
        body: Some(HttpResponse { ok: true, result: HttpResult { message_id } }),
    }
}

#[test]
fn ledger_starts_empty() {
    let ledger = LastTelegramMessage::new();
    assert_eq!(ledger.id(), -1);
    assert_eq!(ledger.text(), "");
}

#[test]
fn same_text_twice_retracts_the_first_message() {
    let mut ledger = LastTelegramMessage::new();
    assert_eq!(ledger.settle("proxy server seems down", Ok(101)), Ok(None));
    assert_eq!(ledger.id(), 101);
    assert_eq!(ledger.text(), "proxy server seems down");
    assert_eq!(ledger.settle("proxy server seems down", Ok(102)), Ok(Some(101)));
    assert_eq!(ledger.id(), 102);
    assert_eq!(ledger.text(), "proxy server seems down");
}

#[test]
fn different_text_retracts_nothing() {
    let mut ledger = LastTelegramMessage::new();
    assert_eq!(ledger.settle("proxy server seems down", Ok(101)), Ok(None));
    assert_eq!(ledger.settle("recovered after failure", Ok(102)), Ok(None));
    assert_eq!(ledger.id(), 102);
    assert_eq!(ledger.text(), "recovered after failure");
}

#[test]
fn repeated_alert_keeps_one_message() {
    let mut ledger = LastTelegramMessage::new();
    let mut sent = 0;
    let mut retracted = Vec::new();
    for id in 1..=5 {
        sent += 1;
        if let Ok(Some(stale)) = ledger.settle("proxy server seems down", Ok(id)) {
            retracted.push(stale);
        }
    }
    assert_eq!(sent, 5);
    assert_eq!(retracted, vec![1, 2, 3, 4]);
    assert_eq!(ledger.id(), 5);
}

#[test]
fn failed_send_leaves_the_ledger_alone() {
    let mut ledger = LastTelegramMessage::new();
    assert_eq!(ledger.settle("client bot is running", Ok(7)), Ok(None));
    assert_eq!(
        ledger.settle("proxy server seems down", Err(NotifyError::Transport)),
        Err(NotifyError::Transport)
    );
    assert_eq!(ledger.id(), 7);
    assert_eq!(ledger.text(), "client bot is running");
    let refused = NotifyError::Rejected { detail: String::from("chat not found") };
    assert_eq!(ledger.settle("client bot is running", Err(refused.clone())), Err(refused));
    assert_eq!(ledger.id(), 7);
    assert_eq!(ledger.text(), "client bot is running");
}

#[test]
fn failed_send_on_empty_ledger_keeps_it_empty() {
    let mut ledger = LastTelegramMessage::new();
    assert_eq!(ledger.settle("x", Err(NotifyError::Malformed)), Err(NotifyError::Malformed));
    assert_eq!(ledger.id(), -1);
    assert_eq!(ledger.text(), "");
}

#[test]
fn ids_that_are_not_positive_are_never_retracted() {
    let mut ledger = LastTelegramMessage::new();
    assert_eq!(ledger.settle("", Ok(5)), Ok(None));
    assert_eq!(ledger.settle("again", Ok(0)), Ok(None));
    assert_eq!(ledger.settle("again", Ok(-3)), Ok(None));
    assert_eq!(ledger.settle("again", Ok(9)), Ok(None));
    assert_eq!(ledger.settle("again", Ok(10)), Ok(Some(9)));
    assert_eq!(ledger.id(), 10);
}

#[test]
fn ledger_holds_the_last_sent_message_whatever_came_before() {
    let mut ledger = LastTelegramMessage::new();
    let _ = ledger.settle("a", Ok(1));
    let _ = ledger.settle("b", Ok(2));
    let _ = ledger.settle("b", Err(NotifyError::Transport));
    let _ = ledger.settle("c", Ok(i64::MAX));
    assert_eq!(ledger.id(), i64::MAX);
    assert_eq!(ledger.text(), "c");
    let _ = ledger.settle("d", Err(NotifyError::Transport));
    assert_eq!(ledger.id(), i64::MAX);
    assert_eq!(ledger.text(), "c");
}

#[test]
fn send_result_reads_the_message_id() {
    assert_eq!(send_result(accepted(1562822)), Ok(1562822));
    let not_ok = ChannelReply::Accepted {
        body: Some(HttpResponse { ok: false, result: HttpResult { message_id: -4 } }),
    };
    assert_eq!(send_result(not_ok), Ok(-4));
}

#[test]
fn send_result_names_each_failure() {
    assert_eq!(send_result(ChannelReply::Unreachable), Err(NotifyError::Transport));
    assert_eq!(
        send_result(ChannelReply::Accepted { body: None }),
        Err(NotifyError::Malformed)
    );
    assert_eq!(
        send_result(ChannelReply::Refused { detail: Some(String::from("Bad Request")) }),
        Err(NotifyError::Rejected { detail: String::from("Bad Request") })
    );
    assert_eq!(
        send_result(ChannelReply::Refused { detail: None }),
        Err(NotifyError::Transport)
    );
}

#[test]
fn delete_result_reads_the_answer() {
    assert_eq!(delete_result(accepted(3)), Ok(()));
    assert_eq!(delete_result(ChannelReply::Accepted { body: None }), Ok(()));
    assert_eq!(delete_result(ChannelReply::Unreachable), Err(NotifyError::Transport));
    assert_eq!(
        delete_result(ChannelReply::Refused { detail: Some(String::from("gone")) }),
        Err(NotifyError::Rejected { detail: String::from("gone") })
    );
    assert_eq!(
        delete_result(ChannelReply::Refused { detail: None }),
        Err(NotifyError::Transport)
    );
}
