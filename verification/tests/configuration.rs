use edsh::config::select_relay_urls;
use edsh::protocol::{legacy_alpn, native_alpn, server_alpns, Message};

#[test]
fn cli_relays_take_precedence() {
    let cli = vec!["https://relay.cli.example".to_string()];
    let cfg = Some(vec!["https://relay.cfg.example".to_string()]);
    let chosen = select_relay_urls(cli.clone(), cfg);
    assert_eq!(chosen, cli);
}

#[test]
fn config_relays_filtered_to_well_formed() {
    let cfg = vec![
        "https://relay-one.example".to_string(),
        "not a url".to_string(),
        "https://relay-two.example".to_string(),
        "still#not##valid urls".to_string(),
    ];
    let chosen = select_relay_urls(Vec::new(), Some(cfg));
    assert_eq!(
        chosen,
        vec![
            "https://relay-one.example".to_string(),
            "https://relay-two.example".to_string(),
        ]
    );
}

#[test]
fn no_relays_anywhere_means_empty_list() {
    let chosen = select_relay_urls(Vec::new(), None);
    assert!(chosen.is_empty());
    let chosen = select_relay_urls(Vec::new(), Some(Vec::new()));
    assert!(chosen.is_empty());
}

#[test]
fn cli_relays_kept_exactly_as_given() {
    // Command-line values were already validated by the argument parser and
    // are not re-filtered.
    let cli = vec!["https://a.example".to_string(), "https://b.example".to_string()];
    let chosen = select_relay_urls(cli.clone(), None);
    assert_eq!(chosen, cli);
}

#[test]
fn protocol_tags_have_expected_wire_bytes() {
    assert_eq!(native_alpn(), b"edsh/1".to_vec());
    assert_eq!(legacy_alpn(), b"/iroh/ssh".to_vec());
}

#[test]
fn server_accepts_both_protocol_tags() {
    let tags = server_alpns();
    assert_eq!(tags.len(), 2);
    assert_eq!(tags[0], b"edsh/1".to_vec());
    assert_eq!(tags[1], b"/iroh/ssh".to_vec());
    assert_ne!(tags[0], tags[1]);
}

#[test]
fn handshake_message_round_trips_through_match() {
    let m = Message::Connect;
    let recognized = matches!(m, Message::Connect);
    assert!(recognized);
}
