use haproxy_api::notify::{
    advance_future_id, classify_notification_line, is_white_space, subscription_reply, NotificationReply,
    NotificationRequest, FIRST_FUTURE_ID,
};

#[test]
fn ping_is_answered_with_pong() {
    assert_eq!(classify_notification_line("PING"), NotificationRequest::Ping);
    assert_eq!(classify_notification_line("  PING\r"), NotificationRequest::Ping);
    assert_eq!(classify_notification_line("\u{a0}PING\u{3000}"), NotificationRequest::Ping);
    assert_eq!(NotificationReply::Pong.text(), "PONG\n");
}

#[test]
fn future_ids_are_read_like_str_parse() {
    assert_eq!(classify_notification_line("42"), NotificationRequest::Future(42));
    assert_eq!(classify_notification_line(" +7 \t"), NotificationRequest::Future(7));
    assert_eq!(classify_notification_line("0007"), NotificationRequest::Future(7));
    assert_eq!(
        classify_notification_line("18446744073709551615"),
        NotificationRequest::Future(u64::MAX)
    );
    for line in ["18446744073709551616", "-1", "+", "", "  ", "1 2", "ping", "PINGS", "1a", "٣"] {
        let expected = match line.trim() {
            "PING" => NotificationRequest::Ping,
            text => match text.parse::<u64>() {
                Ok(id) => NotificationRequest::Future(id),
                Err(_) => NotificationRequest::Ignore,
            },
        };
        assert_eq!(classify_notification_line(line), expected, "line {line:?}");
        assert_eq!(expected, NotificationRequest::Ignore, "line {line:?}");
    }
}

#[test]
fn subscriptions_are_answered_ready_or_err() {
    assert_eq!(subscription_reply(true), NotificationReply::Ready);
    assert_eq!(subscription_reply(false), NotificationReply::Unknown);
    assert_eq!(NotificationReply::Ready.text(), "READY\n");
    assert_eq!(NotificationReply::Unknown.text(), "ERR\n");
}

#[test]
fn white_space_matches_char_is_whitespace() {
    for value in 0u32..0x3100 {
        if let Some(c) = char::from_u32(value) {
            assert_eq!(is_white_space(c), c.is_whitespace(), "char {value:#x}");
        }
    }
}

#[test]
fn future_ids_advance_until_exhausted() {
    assert_eq!(FIRST_FUTURE_ID, 1);
    assert_eq!(advance_future_id(1), Some(2));
    assert_eq!(advance_future_id(u64::MAX - 1), Some(u64::MAX));
    assert_eq!(advance_future_id(u64::MAX), None);
}
