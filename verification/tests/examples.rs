use std::sync::Arc;

use tracing_channels::app_error::{classify_body, AppError};
use tracing_channels::config::{Config, Context};
use tracing_channels::custom::{Custom, CustomDecodeError, CustomEntry, CustomField, Type};
use tracing_channels::forward::ForwardDetails;
use tracing_channels::greeting::{hello, hello_post, Person};
use tracing_channels::my_struct::MyStruct;
use tracing_channels::retry::{FixedInterval, RetryExhausted, RetryStrategy};
use tracing_channels::thing_that_uses_my_struct::ThingThatUsesMyStruct;
use tracing_channels::timer::{TimerFuture, TimerPoll};

#[test]
fn test_thing_that_uses_my_struct() {
    // prepare
    let mock_my_struct =
        MyStruct::with_thing("this is definitely from a mocked struct".to_string());

    // execute
    let thing_that_uses_my_struct = ThingThatUsesMyStruct::new(mock_my_struct);

    // assert
    assert_eq!(
        thing_that_uses_my_struct.reveal_all(),
        "this is definitely from a mocked struct"
    );
}

#[test]
fn my_struct_reveals_its_default_contents() {
    assert_eq!(MyStruct::new().reveal_thing(), "surprise!");
}

#[test]
fn config_context_shares_one_config() {
    let cfg = Arc::new(Config::new());
    assert_eq!(cfg.key, "value");
    let ctx = Context { arc_ref: Arc::clone(&cfg) };
    assert_eq!(Arc::strong_count(&cfg), 2);
    let ctx2 = ctx.clone();
    assert_eq!(Arc::strong_count(&cfg), 3);
    assert_eq!(ctx2.arc_ref.key, "value");
}

#[test]
fn hello_greets_plainly_and_in_caps() {
    assert_eq!(hello("world", None), "Hello, world!");
    assert_eq!(hello("world", Some(false)), "Hello, world!");
    assert_eq!(hello("world", Some(true)), "Hello, WORLD!");
}

#[test]
fn hello_post_includes_the_age() {
    assert_eq!(
        hello_post("bob".to_string(), Person { age: 42 }, None),
        "Hello, 42 year old named bob!"
    );
    assert_eq!(
        hello_post("bob".to_string(), Person { age: 7 }, Some(true)),
        "Hello, 7 year old named BOB!"
    );
}

#[test]
fn fixed_interval_counts_attempts_then_gives_up() {
    let mut strategy = FixedInterval::new(5000, 2);
    assert_eq!(strategy.execute(), Ok(5000));
    assert_eq!(strategy.execute(), Ok(5000));
    assert_eq!(strategy.execute(), Err(RetryExhausted));
    assert_eq!(strategy.execute(), Err(RetryExhausted));
}

#[test]
fn timer_polls_pending_until_fired() {
    let mut fut = TimerFuture::new();
    assert_eq!(fut.poll_step(), TimerPoll::Pending);
    assert!(fut.waker_registered);
    assert!(!fut.completed);
    fut.fire();
    assert_eq!(fut.poll_step(), TimerPoll::Ready);
}

#[test]
fn custom_serializes_to_named_entries() {
    let with_third = Custom::new("Hello".to_string(), 123, Some("World".to_string()));
    assert_eq!(
        with_third.entries(),
        vec![
            CustomEntry::First("Hello".to_string()),
            CustomEntry::Second(123),
            CustomEntry::Third("World".to_string()),
        ]
    );
    let without_third = Custom::new("Hello".to_string(), 123, None);
    assert_eq!(
        without_third.entries(),
        vec![CustomEntry::First("Hello".to_string()), CustomEntry::Second(123)]
    );
}

#[test]
fn custom_rebuilds_from_entries_and_derives_its_variant() {
    let built = Custom::from_entries(vec![
        CustomEntry::First("Hello".to_string()),
        CustomEntry::Second(123),
        CustomEntry::Third("World".to_string()),
    ])
    .expect("complete entries");
    assert_eq!(
        built,
        Custom::new_with_typ("Hello".to_string(), 123, Some("World".to_string()), Type::Beta)
    );
    let no_third =
        Custom::from_entries(vec![CustomEntry::First("Hello".to_string()), CustomEntry::Second(123)])
            .expect("complete entries");
    assert_eq!(no_third, Custom::new_with_typ("Hello".to_string(), 123, None, Type::Alpha));
}

#[test]
fn custom_rejects_duplicate_and_missing_fields() {
    assert_eq!(
        Custom::from_entries(vec![
            CustomEntry::First("a".to_string()),
            CustomEntry::First("b".to_string()),
        ]),
        Err(CustomDecodeError::DuplicateField(CustomField::First))
    );
    assert_eq!(
        Custom::from_entries(vec![
            CustomEntry::First("a".to_string()),
            CustomEntry::Second(1),
            CustomEntry::Second(2),
        ]),
        Err(CustomDecodeError::DuplicateField(CustomField::Second))
    );
    assert_eq!(
        Custom::from_entries(vec![CustomEntry::Second(1)]),
        Err(CustomDecodeError::MissingField(CustomField::First))
    );
    assert_eq!(
        Custom::from_entries(vec![CustomEntry::First("a".to_string())]),
        Err(CustomDecodeError::MissingField(CustomField::Second))
    );
}

#[test]
fn determine_typ_follows_the_optional_field() {
    assert_eq!(Custom::determine_typ(&Some("x".to_string())), Type::Beta);
    assert_eq!(Custom::determine_typ(&None), Type::Alpha);
}

#[test]
fn forward_details_holds_the_url() {
    let fd = ForwardDetails::new("http://localhost:8001".to_string());
    assert_eq!(fd.forward_url, "http://localhost:8001");
}

#[test]
fn app_error_recognizes_timeouts() {
    assert!(AppError::new("request timeout after 5s".to_string()).is_timeout());
    assert!(AppError::new("timeout".to_string()).is_timeout());
    assert!(!AppError::new("connection refused".to_string()).is_timeout());
    assert_eq!(AppError::new("boom".to_string()).message(), "boom");
}

#[test]
fn classify_body_fails_bodies_that_report_errors() {
    assert_eq!(classify_body("Life is good.".to_string()), Ok("Life is good.".to_string()));
    let err = classify_body("{\"error\":\"customerror\"}".to_string()).expect_err("error body");
    assert_eq!(err.message(), "error");
}
