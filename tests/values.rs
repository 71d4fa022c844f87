use netron_chat::email::EmailAddress;
use netron_chat::platform::rfc3339_of_millis;
use netron_chat::retry::{next_step, AttemptOutcome, RetryDecision};
use netron_chat::text::contains_str;
use netron_chat::theme::Theme;
use netron_chat::timefmt::relative_label;

#[test]
fn email_parsing() {
    assert_eq!(EmailAddress::from_str("a@b.c").unwrap().0, "a@b.c");
    assert_eq!(EmailAddress::from_str("").unwrap_err(), "Invalid email address");
    assert_eq!(EmailAddress::from_str("abc").unwrap_err(), "Invalid email address");
    assert_eq!(EmailAddress::create_blank().0, "");
    assert_eq!(EmailAddress::default().to_string(), "");
}

#[test]
fn email_validation_uses_pattern() {
    assert!(EmailAddress("ada@example.com".to_string()).validate_email());
    assert!(!EmailAddress("ada@example".to_string()).validate_email());
    assert!(!EmailAddress("a da@example.com".to_string()).validate_email());
    assert!(!EmailAddress("a@b@c.com".to_string()).validate_email());
}

#[test]
fn test_email_shape() {
    assert_eq!(EmailAddress::test_email_at(123).0, "test_123@test.com");
    let e = EmailAddress::create_test_email();
    assert!(e.0.starts_with("test_") && e.0.ends_with("@test.com"));
}

#[test]
fn theme_names_and_toggle() {
    assert_eq!(Theme::Dark.as_str(), "dark");
    assert_eq!(Theme::from_str("system"), Theme::System);
    assert_eq!(Theme::from_str("blue"), Theme::Light);
    assert_eq!(Theme::default(), Theme::System);
    assert_eq!(Theme::Light.toggle(false), Theme::Dark);
    assert_eq!(Theme::Light.toggle(true), Theme::System);
    assert_eq!(Theme::Dark.toggle(false), Theme::System);
    assert_eq!(Theme::System.toggle(true), Theme::Light);
    assert_eq!(Theme::System.effective(true), Theme::Dark);
    assert_eq!(Theme::Light.effective(true), Theme::Light);
}

#[test]
fn retry_policy_doubles_then_gives_up() {
    assert_eq!(next_step(1, AttemptOutcome::Failed), RetryDecision::Wait(500));
    assert_eq!(next_step(2, AttemptOutcome::TimedOut), RetryDecision::Wait(1000));
    assert_eq!(next_step(4, AttemptOutcome::Failed), RetryDecision::Wait(4000));
    assert_eq!(next_step(5, AttemptOutcome::Failed), RetryDecision::GiveUp { timed_out: false });
    assert_eq!(next_step(5, AttemptOutcome::TimedOut), RetryDecision::GiveUp { timed_out: true });
    assert_eq!(next_step(3, AttemptOutcome::Connected), RetryDecision::Ready);
}

#[test]
fn relative_labels() {
    assert_eq!(relative_label(5), "5 seconds ago");
    assert_eq!(relative_label(60), "1 minute ago");
    assert_eq!(relative_label(150), "2 minutes ago");
    assert_eq!(relative_label(3600), "1 hour ago");
    assert_eq!(relative_label(86400 * 2), "2 days ago");
    assert_eq!(relative_label(86400 * 30), "1 month ago");
    assert_eq!(relative_label(86400 * 400), "1 year ago");
    assert_eq!(relative_label(86400 * 800), "2 years ago");
}

#[test]
fn rfc3339_text_of_epoch() {
    assert_eq!(rfc3339_of_millis(0).as_deref(), Some("1970-01-01T00:00:00+00:00"));
    assert_eq!(rfc3339_of_millis(i64::MAX), None);
}

#[test]
fn substring_search() {
    assert!(contains_str("abc_session_token", "session_token"));
    assert!(!contains_str("sess", "session"));
    assert!(contains_str("x", ""));
}
