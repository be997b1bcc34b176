use ultidesk::sink::{handshake_accepted, PeerSinkReport};

#[test]
fn only_a_hello_ok_accepts_the_handshake() {
    assert!(handshake_accepted("{\"HelloOk\":{\"agent_version\":\"0.1.0\",\"protocol_version\":1}}\n"));
    assert!(!handshake_accepted("{\"Error\":{\"code\":\"unauthorized\",\"message\":\"invalid auth token\"}}\n"));
    assert!(!handshake_accepted(""));
}

#[test]
fn refusals_are_counted_and_the_first_is_kept() {
    let mut report = PeerSinkReport::new();
    report.note_sent();
    report.note_sent();
    report.note_reply("\"Injected\"\n");
    report.note_reply("  {\"Error\":{\"code\":\"not_permitted\",\"message\":\"a\"}}\n");
    report.note_reply("{\"Error\":{\"code\":\"input_blocked\",\"message\":\"b\"}}\n");
    assert_eq!(
        report,
        PeerSinkReport {
            sent: 2,
            refusals: 2,
            first_error: Some("{\"Error\":{\"code\":\"not_permitted\",\"message\":\"a\"}}".to_string()),
        }
    );
}

#[test]
fn the_refusal_count_wraps_like_an_atomic_counter() {
    let mut report = PeerSinkReport { sent: 0, refusals: u64::MAX, first_error: None };
    report.note_reply("{\"Error\":{}}");
    assert_eq!(report.refusals, 0);
    assert_eq!(report.first_error.as_deref(), Some("{\"Error\":{}}"));
}
