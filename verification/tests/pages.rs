use oneoneseven::config::Config;
use oneoneseven::pages::{index, info, render_metrics};

#[test]
fn default_configuration() {
    let config = Config::default();
    assert_eq!(config.listen, "127.0.0.1:8420");
    assert_eq!(config.max_object_size, 1_000_000);
    assert_eq!(config.max_objects, 256);
    assert_eq!(config.max_slots, 10);
    assert_eq!(config.max_age_secs, 3600);
    assert_eq!(config.prune_secs, 60);
}

#[test]
fn info_lists_the_limits() {
    let reply = info(&Config::default());
    assert_eq!(reply.status, 200);
    assert_eq!(reply.content_type.as_deref(), Some("application/json"));
    assert_eq!(&reply.body[..], br#"{"max_age_secs":3600,"max_object_size":1000000}"#);

    let reply = info(&Config { max_age_secs: 0, max_object_size: u64::MAX, ..Config::default() });
    assert_eq!(&reply.body[..], br#"{"max_age_secs":0,"max_object_size":18446744073709551615}"#);
}

#[test]
fn index_serves_the_page() {
    let reply = index("<p>h\u{e9}llo</p>");
    assert_eq!(reply.status, 200);
    assert_eq!(reply.content_type.as_deref(), Some("text/html; charset=utf-8"));
    assert_eq!(reply.body, "<p>h\u{e9}llo</p>".as_bytes());
}

#[test]
fn metrics_are_shown_as_they_are() {
    let reply = render_metrics("pruner_runs 3\n");
    assert_eq!(reply.status, 200);
    assert_eq!(reply.content_type, None);
    assert_eq!(&reply.body[..], b"pruner_runs 3\n");
}
