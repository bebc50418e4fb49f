use rusty_switch::config::{parse_i64, parse_threshold_days};
use rusty_switch::email::{
    collect_failures, compose_activation_emails, compose_checkin_email, parse_sender,
    DeliveryOutcome, Mailbox,
};
use rusty_switch::startup::{build_config, ConfigError};

#[test]
fn parse_i64_accepts_exactly_integer_literals() {
    assert_eq!(parse_i64("0"), Some(0));
    assert_eq!(parse_i64("7"), Some(7));
    assert_eq!(parse_i64("+5"), Some(5));
    assert_eq!(parse_i64("-3"), Some(-3));
    assert_eq!(parse_i64("0042"), Some(42));
    assert_eq!(parse_i64("9223372036854775807"), Some(i64::MAX));
    assert_eq!(parse_i64("-9223372036854775808"), Some(i64::MIN));
    assert_eq!(parse_i64("9223372036854775808"), None);
    assert_eq!(parse_i64("-9223372036854775809"), None);
    assert_eq!(parse_i64("99999999999999999999999999"), None);
    assert_eq!(parse_i64(""), None);
    assert_eq!(parse_i64("-"), None);
    assert_eq!(parse_i64("+"), None);
    assert_eq!(parse_i64(" 7"), None);
    assert_eq!(parse_i64("7 "), None);
    assert_eq!(parse_i64("1.5"), None);
    assert_eq!(parse_i64("abc"), None);
}

#[test]
fn threshold_defaults_to_seven_days() {
    assert_eq!(parse_threshold_days("7"), 7);
    assert_eq!(parse_threshold_days("30"), 30);
    assert_eq!(parse_threshold_days("-1"), -1);
    assert_eq!(parse_threshold_days(""), 7);
    assert_eq!(parse_threshold_days("a week"), 7);
    assert_eq!(parse_threshold_days("99999999999999999999999999"), 7);
}

#[test]
fn mailbox_validation_follows_the_mail_parser() {
    assert!(Mailbox::parse("user@example.com").is_some());
    assert!(Mailbox::parse("Some One <user@example.com>").is_some());
    assert!(Mailbox::parse("not an address").is_none());
    assert!(Mailbox::parse("").is_none());
    let m = Mailbox::parse("user@example.com").unwrap();
    assert_eq!(m.as_str(), "user@example.com");
}

#[test]
fn sender_is_validated_in_display_form() {
    let s = parse_sender("ops@example.com").unwrap();
    assert_eq!(s.as_str(), "Rusty Switch <ops@example.com>");
    assert!(parse_sender("not an address").is_none());
}

#[test]
fn checkin_email_embeds_the_reset_link() {
    let sender = parse_sender("ops@example.com").unwrap();
    let e = compose_checkin_email(&sender, "AbCd1234EfGh5678");
    assert_eq!(e.to.as_str(), "Rusty Switch <ops@example.com>");
    assert_eq!(e.subject, "Rusty Switch Check In");
    assert_eq!(
        e.body,
        "<html><img src='http://localhost:6969/heartbeat?token=AbCd1234EfGh5678'><h1>Checking in.</h1></html>"
    );
}

#[test]
fn activation_emails_reach_every_recipient_with_the_payload() {
    let recipients = vec![
        Mailbox::parse("a@example.com").unwrap(),
        Mailbox::parse("b@example.com").unwrap(),
    ];
    let es = compose_activation_emails(&recipients, "the secret payload");
    assert_eq!(es.len(), 2);
    assert_eq!(es[0].to.as_str(), "a@example.com");
    assert_eq!(es[1].to.as_str(), "b@example.com");
    for e in &es {
        assert_eq!(e.subject, "Rusty Switch ACTIVATED");
        assert_eq!(e.body, "<html><p>the secret payload</p></html>");
    }
}

#[test]
fn best_effort_delivery_reports_only_the_failures() {
    let outcomes = vec![
        DeliveryOutcome::Failed(String::from("ERROR: Failed to send email: boom")),
        DeliveryOutcome::Delivered,
    ];
    let fails = collect_failures(&outcomes);
    assert_eq!(fails, vec![String::from("ERROR: Failed to send email: boom")]);
    assert!(collect_failures(&vec![DeliveryOutcome::Delivered, DeliveryOutcome::Delivered])
        .is_empty());
}

#[test]
fn build_config_accepts_valid_startup_input() {
    let recipients = vec![String::from("a@example.com"), String::from("b@example.com")];
    let c = build_config("ops@example.com", &recipients, String::from("payload"), "3").unwrap();
    assert_eq!(c.sender.as_str(), "Rusty Switch <ops@example.com>");
    assert_eq!(c.recipients.len(), 2);
    assert_eq!(c.recipients[1].as_str(), "b@example.com");
    assert_eq!(c.payload, "payload");
    assert_eq!(c.threshold_days, 3);
}

#[test]
fn build_config_rejects_a_bad_sender_first() {
    let recipients = vec![String::from("not an address")];
    let e = build_config("also bad", &recipients, String::from("p"), "7").unwrap_err();
    assert_eq!(e.message(), "ERROR: Sender email is invalid: also bad");
}

#[test]
fn build_config_names_the_first_bad_recipient() {
    let recipients = vec![
        String::from("ok@example.com"),
        String::from("broken"),
        String::from("also broken"),
    ];
    let e = build_config("ops@example.com", &recipients, String::from("p"), "7").unwrap_err();
    assert_eq!(e.message(), "ERROR: Recipient email is invalid: broken");
}

#[test]
fn build_config_rejects_an_empty_payload() {
    let recipients = vec![String::from("a@example.com")];
    let e = build_config("ops@example.com", &recipients, String::new(), "7").unwrap_err();
    assert!(matches!(e, ConfigError::EmptyPayload));
    assert_eq!(e.message(), "ERROR: data file cannot be empty.");
}

#[test]
fn clock_reads_a_plausible_time() {
    // The sandbox clock is well past 2001-09-09 (Unix time 10^9).
    assert!(rusty_switch::clock::current_unix_time() > 1_000_000_000);
}
