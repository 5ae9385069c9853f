use crystal::relay::{default_subscriptions, Relay};
use crystal::state::display_status;
use crystal::text::str_eq;

#[test]
fn default_table_routes_each_topic_to_its_event() {
    let relay = default_subscriptions();
    assert_eq!(relay.subs.len(), 2);
    assert_eq!(relay.route("/lol-champ-select/v1/session"), Some(0));
    assert_eq!(relay.route("/lol-gameflow/v1/session"), Some(1));
    assert_eq!(relay.route("/lol-lobby/v2/lobby"), None);
    assert_eq!(relay.route(""), None);
}

#[test]
fn deliver_forwards_payload_unchanged() {
    let relay = default_subscriptions();
    let payload = String::from("{\"phase\":\"ChampSelect\"}");
    let delivered = relay.deliver("/lol-champ-select/v1/session", payload.clone());
    let (event, forwarded) = delivered.expect("subscribed topic must produce an event");
    assert_eq!(event, "champ-select");
    assert_eq!(forwarded, payload);

    let delivered = relay.deliver("/lol-gameflow/v1/session", 42u64);
    assert_eq!(delivered, Some((String::from("gameflow"), 42u64)));
}

#[test]
fn unsubscribed_topic_produces_no_event() {
    let relay = default_subscriptions();
    assert_eq!(relay.deliver("/lol-chat/v1/me", 5u8), None);
    let empty = Relay::new();
    assert_eq!(empty.deliver("/lol-gameflow/v1/session", 5u8), None);
}

#[test]
fn duplicate_topic_routes_to_first_registration() {
    let mut relay = Relay::new();
    relay.subscribe(String::from("topic"), String::from("first"));
    relay.subscribe(String::from("topic"), String::from("second"));
    assert_eq!(relay.route("topic"), Some(0));
    let (event, _) = relay.deliver("topic", 0u8).unwrap();
    assert_eq!(event, "first");
}

#[test]
fn str_eq_compares_by_characters() {
    assert!(str_eq("", ""));
    assert!(str_eq("abc", "abc"));
    assert!(!str_eq("abc", "abd"));
    assert!(!str_eq("abc", "ab"));
    assert!(!str_eq("GET", "get"));
}

#[test]
fn display_status_names_both_states() {
    assert_eq!(display_status(true), "connected");
    assert_eq!(display_status(false), "disconnected");
}
