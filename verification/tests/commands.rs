use thirtyfour_sync::http::connection_sync::HttpClientCreateParams;
use thirtyfour_sync::http::nulldriver_sync::NullDriverSync;
use thirtyfour_sync::http::reqwest_sync::{base_url, response_kind, ResponseKind};
use thirtyfour_sync::query::element_query::{QueryOutcome, QueryStep};
use thirtyfour_sync::query::element_waiter::{WaitOutcome, WaitStep};
use thirtyfour_sync::query::poller::ElementPoller;
use thirtyfour_sync::session::WebDriverConfig;
use thirtyfour_sync::webdrivercommands::{new_tab_handle, retries_new_session, session_id_of};
use thirtyfour_sync::webelement::{
    attribute_value, css_value, is_present, property_value, screenshot_png, ReadFailure, Reply,
    ScreenshotError,
};

fn handles(names: &[&str]) -> Vec<String> {
    names.iter().map(|name| name.to_string()).collect()
}

#[test]
fn new_session_is_retried_on_an_unknown_error_500_only() {
    assert!(retries_new_session(Some(500)));
    assert!(!retries_new_session(Some(404)));
    assert!(!retries_new_session(Some(0)));
    assert!(!retries_new_session(None));
}

#[test]
fn session_id_comes_from_the_top_of_the_reply_first() {
    assert_eq!(session_id_of("abc".to_string(), "def".to_string()), "abc");
    assert_eq!(session_id_of(String::new(), "def".to_string()), "def");
    assert_eq!(session_id_of(String::new(), String::new()), "");
}

#[test]
fn new_tab_is_the_one_handle_that_was_not_there_before() {
    let before = handles(&["w1", "w2"]);
    assert_eq!(new_tab_handle(&before, &handles(&["w1", "w2", "w3"])), Some("w3".to_string()));
    assert_eq!(new_tab_handle(&before, &handles(&["w3", "w2", "w1"])), Some("w3".to_string()));
    assert_eq!(new_tab_handle(&Vec::new(), &handles(&["w1"])), Some("w1".to_string()));
}

#[test]
fn new_tab_is_unknown_when_no_handle_or_several_are_new() {
    let before = handles(&["w1", "w2"]);
    assert_eq!(new_tab_handle(&before, &handles(&["w1", "w2"])), None);
    assert_eq!(new_tab_handle(&before, &handles(&["w1", "w2", "w3", "w4"])), None);
    assert_eq!(new_tab_handle(&before, &handles(&["w3", "w3"])), None);
    assert_eq!(new_tab_handle(&before, &Vec::new()), None);
}

#[test]
fn property_is_given_as_text_or_as_json() {
    assert_eq!(property_value(Reply::Null), None);
    assert_eq!(property_value(Reply::Text("on".to_string())), Some("on".to_string()));
    assert_eq!(property_value(Reply::Other("true".to_string())), Some("true".to_string()));
    assert_eq!(property_value(Reply::Other("[1,2]".to_string())), Some("[1,2]".to_string()));
}

#[test]
fn attribute_is_a_text_or_missing() {
    assert_eq!(attribute_value(Reply::Null), None);
    assert_eq!(attribute_value(Reply::Text("x".to_string())), Some("x".to_string()));
    assert_eq!(attribute_value(Reply::Other("12".to_string())), None);
}

#[test]
fn css_value_is_a_text_or_empty() {
    assert_eq!(css_value(Reply::Null), "");
    assert_eq!(css_value(Reply::Text("rgb(0, 0, 0)".to_string())), "rgb(0, 0, 0)");
    assert_eq!(css_value(Reply::Other("3".to_string())), "");
}

#[test]
fn screenshot_is_decoded_from_base64() {
    assert_eq!(screenshot_png("aGVsbG8gd29ybGQ=").unwrap(), b"hello world".to_vec());
    assert_eq!(
        screenshot_png("iVBORw0KGgo=").unwrap(),
        vec![0x89, b'P', b'N', b'G', 13, 10, 26, 10],
    );
    assert_eq!(screenshot_png("").unwrap(), Vec::<u8>::new());
}

#[test]
fn screenshot_that_is_not_base64_is_refused() {
    assert!(matches!(screenshot_png("not base64!"), Err(ScreenshotError::Invalid(_))));
    assert!(matches!(screenshot_png("aGVs*G8="), Err(ScreenshotError::Invalid(_))));
}

#[test]
fn base_url_has_no_slash_at_the_end() {
    assert_eq!(base_url("http://localhost:4444/wd/hub"), "http://localhost:4444/wd/hub");
    assert_eq!(base_url("http://localhost:4444/"), "http://localhost:4444");
    assert_eq!(base_url("http://localhost:4444///"), "http://localhost:4444");
    assert_eq!(base_url("a//b/"), "a//b");
    assert_eq!(base_url("///"), "");
    assert_eq!(base_url(""), "");
}

#[test]
fn status_tells_success_from_failure() {
    assert_eq!(response_kind(200), ResponseKind::Success);
    assert_eq!(response_kind(399), ResponseKind::Success);
    assert_eq!(response_kind(400), ResponseKind::Failure);
    assert_eq!(response_kind(500), ResponseKind::Failure);
    assert_eq!(response_kind(599), ResponseKind::Failure);
}

#[test]
fn null_driver_keeps_its_address() {
    let params = HttpClientCreateParams {
        server_url: "http://localhost:4444".to_string(),
        timeout: Some(std::time::Duration::from_secs(120)),
    };
    let driver = NullDriverSync::create(params.clone());
    assert_eq!(driver.url(), "http://localhost:4444");
    assert_eq!(params.timeout, Some(std::time::Duration::from_secs(120)));
}

#[test]
fn session_starts_with_the_default_poller() {
    let config = WebDriverConfig::new();
    assert_eq!(
        config.query_poller,
        ElementPoller::TimeoutWithInterval(20_000_000_000, 500_000_000)
    );
}

#[test]
fn waits_and_queries_take_the_poller_of_the_session() {
    let mut config = WebDriverConfig::new();
    config.set_query_poller(ElementPoller::NoWait);
    assert_eq!(config.query_poller, ElementPoller::NoWait);
    // With `NoWait` one failed attempt ends a wait and a query.
    let wait = match config.wait_until().displayed::<String>() {
        WaitStep::Evaluate { wait, .. } => wait,
        WaitStep::Done(_) => panic!("the wait has a condition to evaluate"),
    };
    match wait.step::<String>(Ok(false), 0) {
        WaitStep::Done(outcome) => assert_eq!(outcome, WaitOutcome::TimedOut(String::new())),
        WaitStep::Evaluate { .. } => panic!("no second attempt is made"),
    }
    let query = match config.query("id=a".to_string()).does_exist::<String>() {
        QueryStep::Find { query, .. } => query,
        _ => panic!("a lookup comes first"),
    };
    match query.found::<String>(Ok(0), 0) {
        QueryStep::Done(outcome) => assert_eq!(outcome, QueryOutcome::Answer(false)),
        _ => panic!("no second attempt is made"),
    }
}

#[test]
fn element_is_present_unless_it_is_gone() {
    assert_eq!(is_present::<String>(Ok(())), Ok(true));
    assert_eq!(is_present::<String>(Err(ReadFailure::Gone)), Ok(false));
    assert_eq!(
        is_present(Err(ReadFailure::Other("timeout".to_string()))),
        Err("timeout".to_string())
    );
}
