use watchdog::alerting::{Alert, AlertSeverity};
use watchdog::clock::Timestamp;
use watchdog::notification::{
    write_chat_payload, write_chat_text, write_email_body, write_email_subject, EmailNotifier,
    NotificationError, SlackNotifier,
};

fn alert(timestamp: Timestamp) -> Alert {
    Alert {
        timestamp,
        severity: AlertSeverity::Warning,
        source: "CPU".to_string(),
        message: "High CPU usage: 85.0%".to_string(),
        details: "Threshold: 80.0%".to_string(),
    }
}

fn mailer() -> EmailNotifier {
    EmailNotifier::new(
        "smtp.example.com".to_string(),
        587,
        "username".to_string(),
        "password".to_string(),
        "from@example.com".to_string(),
        "to@example.com".to_string(),
    )
    .unwrap()
}

fn chat() -> SlackNotifier {
    SlackNotifier::new("https://hooks.example.com/T/B/x".to_string(), "#monitoring".to_string())
        .unwrap()
}

fn mailer_between(from: &str, to: &str) -> Result<EmailNotifier, NotificationError> {
    EmailNotifier::new(
        "smtp.example.com".to_string(),
        25,
        "u".to_string(),
        "p".to_string(),
        from.to_string(),
        to.to_string(),
    )
}

#[test]
fn email_notifier_keeps_its_settings() {
    let notifier = mailer();
    assert_eq!(notifier.smtp_server(), "smtp.example.com");
    assert_eq!(notifier.smtp_port(), 587);
    assert_eq!(notifier.username(), "username");
    assert_eq!(notifier.password(), "password");
    assert_eq!(notifier.from_address(), "from@example.com");
    assert_eq!(notifier.to_address(), "to@example.com");
}

#[test]
fn slack_notifier_keeps_its_settings() {
    let notifier = chat();
    assert_eq!(notifier.webhook_url(), "https://hooks.example.com/T/B/x");
    assert_eq!(notifier.channel(), "#monitoring");
}

#[test]
fn email_is_composed_from_the_alert() {
    let message = mailer().compose(&alert(Timestamp { secs: 1431648000, nanos: 0 })).unwrap();
    assert_eq!(message.from, "from@example.com");
    assert_eq!(message.to, "to@example.com");
    assert_eq!(message.subject, "[Warning] CPU Alert: High CPU usage: 85.0%");
    assert_eq!(
        message.body,
        "Alert Details:\n\nSource: CPU\nSeverity: Warning\nMessage: High CPU usage: 85.0%\nDetails: Threshold: 80.0%\nTimestamp: 2015-05-15 00:00:00 UTC"
    );
}

#[test]
fn chat_message_is_composed_from_the_alert() {
    let message = chat().compose(&alert(Timestamp { secs: 0, nanos: 500_000_000 })).unwrap();
    assert_eq!(message.channel, "#monitoring");
    assert_eq!(
        message.text,
        "*[Warning] CPU Alert*\n>Message: High CPU usage: 85.0%\n>Details: Threshold: 80.0%\n>Timestamp: 1970-01-01 00:00:00.500 UTC"
    );
    assert_eq!(
        message.payload,
        "{\"channel\":\"#monitoring\",\"text\":\"*[Warning] CPU Alert*\\n>Message: High CPU usage: 85.0%\\n>Details: Threshold: 80.0%\\n>Timestamp: 1970-01-01 00:00:00.500 UTC\"}"
    );
}

#[test]
fn the_payload_is_valid_json_whatever_the_texts() {
    let notifier =
        SlackNotifier::new("https://hooks.example.com".to_string(), "a\"b\\c".to_string())
            .unwrap();
    let odd = Alert {
        timestamp: Timestamp { secs: 0, nanos: 0 },
        severity: AlertSeverity::Info,
        source: "tab\there".to_string(),
        message: "quote \" and \u{e9}".to_string(),
        details: "{}".to_string(),
    };
    let message = notifier.compose(&odd).unwrap();
    let value: serde_json::Value = serde_json::from_str(&message.payload).unwrap();
    assert_eq!(value.get("channel").and_then(|v| v.as_str()), Some("a\"b\\c"));
    assert_eq!(value.get("text").and_then(|v| v.as_str()), Some(message.text.as_str()));
    assert_eq!(value.as_object().map(|fields| fields.len()), Some(2));
}

#[test]
fn the_payload_is_framed_around_the_literals() {
    assert_eq!(write_chat_payload("\"c\"", "\"t\""), "{\"channel\":\"c\",\"text\":\"t\"}");
    assert_eq!(write_chat_payload("", ""), "{\"channel\":,\"text\":}");
}

#[test]
fn a_notifier_is_made_of_addresses_that_read_as_mailboxes() {
    let notifier = mailer_between("Watchdog <from@example.com>", "to@example.com").unwrap();
    assert_eq!(notifier.from_address(), "Watchdog <from@example.com>");
    assert_eq!(notifier.to_address(), "to@example.com");
    assert_eq!(notifier.smtp_port(), 25);
    let alert = alert(Timestamp { secs: 0, nanos: 0 });
    let message = notifier.compose(&alert).unwrap();
    assert_eq!(message.from, "Watchdog <from@example.com>");
    assert_eq!(message.to, "to@example.com");
}

#[test]
fn a_malformed_address_gives_no_email_notifier() {
    for (from, to) in [
        ("not an address", "to@example.com"),
        ("from@example.com", "nobody"),
        ("", "to@example.com"),
        ("from@example.com", "to@"),
        ("from@example.com", ""),
        ("<from@example.com", "to@example.com"),
    ] {
        match mailer_between(from, to) {
            Err(NotificationError::EmailError(reason)) => assert!(!reason.is_empty()),
            Err(other) => panic!("unexpected error: {:?}", other),
            Ok(_) => panic!("a notifier from {:?} to {:?}", from, to),
        }
    }
}

#[test]
fn a_malformed_webhook_url_gives_no_slack_notifier() {
    for url in ["", "not a url", "hooks.example.com/T/B/x", "https://", "//hooks.example.com"] {
        match SlackNotifier::new(url.to_string(), "#monitoring".to_string()) {
            Err(NotificationError::SlackError(reason)) => {
                assert!(!reason.is_empty());
                assert_ne!(reason, "the webhook URL names no host");
            }
            Err(other) => panic!("unexpected error: {:?}", other),
            Ok(_) => panic!("a notifier for {:?}", url),
        }
    }
}

#[test]
fn a_webhook_url_without_host_gives_no_slack_notifier() {
    for url in ["mailto:ops@example.com", "data:text/plain,Stuff", "unix:/run/hook.socket"] {
        match SlackNotifier::new(url.to_string(), "#monitoring".to_string()) {
            Err(NotificationError::SlackError(reason)) => {
                assert_eq!(reason, "the webhook URL names no host")
            }
            Err(other) => panic!("unexpected error: {:?}", other),
            Ok(_) => panic!("a notifier for {:?}", url),
        }
    }
}

#[test]
fn a_webhook_url_with_host_gives_a_slack_notifier() {
    for url in ["https://hooks.example.com/T/B/x", "http://127.0.0.1:8080/hook", "HTTPS://EXAMPLE.COM"] {
        let notifier = SlackNotifier::new(url.to_string(), "ops".to_string()).unwrap();
        assert_eq!(notifier.webhook_url(), url);
        assert_eq!(notifier.channel(), "ops");
    }
}
#[test]
fn messages_name_every_part_of_the_alert() {
    let critical = Alert {
        timestamp: Timestamp { secs: 86_400, nanos: 0 },
        severity: AlertSeverity::Critical,
        source: "Container".to_string(),
        message: "Container web is not running".to_string(),
        details: "Container ID: abc123, Status: Exited (1)".to_string(),
    };
    let email = mailer().compose(&critical).unwrap();
    let text = chat().compose(&critical).unwrap().text;
    for part in [
        "Critical",
        "Container",
        "Container web is not running",
        "Container ID: abc123, Status: Exited (1)",
        "1970-01-02 00:00:00 UTC",
    ] {
        assert!(email.body.contains(part));
        assert!(text.contains(part));
    }
    assert_eq!(email.subject, "[Critical] Container Alert: Container web is not running");
}

#[test]
fn an_instant_out_of_range_gives_no_email() {
    for timestamp in [
        Timestamp { secs: i64::MAX, nanos: 0 },
        Timestamp { secs: i64::MIN, nanos: 0 },
        Timestamp { secs: 0, nanos: 2_000_000_000 },
    ] {
        match mailer().compose(&alert(timestamp)) {
            Err(NotificationError::EmailError(reason)) => {
                assert_eq!(reason, "the alert's timestamp is out of range")
            }
            other => panic!("unexpected: {:?}", other),
        }
    }
}

#[test]
fn an_instant_out_of_range_gives_no_chat_message() {
    match chat().compose(&alert(Timestamp { secs: i64::MAX, nanos: 0 })) {
        Err(NotificationError::SlackError(reason)) => {
            assert_eq!(reason, "the alert's timestamp is out of range")
        }
        other => panic!("unexpected: {:?}", other),
    }
}

#[test]
fn texts_are_written_around_a_given_timestamp() {
    let alert = alert(Timestamp { secs: 0, nanos: 0 });
    assert_eq!(write_email_subject(&alert), "[Warning] CPU Alert: High CPU usage: 85.0%");
    assert_eq!(
        write_email_body(&alert, "noon"),
        "Alert Details:\n\nSource: CPU\nSeverity: Warning\nMessage: High CPU usage: 85.0%\nDetails: Threshold: 80.0%\nTimestamp: noon"
    );
    assert_eq!(
        write_chat_text(&alert, "noon"),
        "*[Warning] CPU Alert*\n>Message: High CPU usage: 85.0%\n>Details: Threshold: 80.0%\n>Timestamp: noon"
    );
}

#[test]
fn notification_errors_read_as_lines() {
    assert_eq!(
        NotificationError::EmailError("relay refused".to_string()).describe(),
        "Failed to send email: relay refused"
    );
    assert_eq!(
        NotificationError::SlackError("status 500".to_string()).describe(),
        "Failed to send Slack notification: status 500"
    );
    assert_eq!(
        NotificationError::GeneralError("no route".to_string()).describe(),
        "Failed to send notification: no route"
    );
}
