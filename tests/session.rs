use rust_fib::{blank, DescriptionKind, RemotePlan, WebRTC};

fn offering_session(offer: &str) -> WebRTC {
    let mut s = WebRTC::new();
    assert!(s.create_offer());
    s.connection_established();
    assert!(s.local_description_ready(offer.to_string()));
    s
}

fn open_session() -> WebRTC {
    let mut s = offering_session("v=0 offer");
    s.channel_opened();
    s
}

#[test]
fn fresh_session_is_empty() {
    let s = WebRTC::new();
    assert_eq!(s.get_local_description(), None);
    assert!(s.get_messages().is_empty());
    assert_eq!(s.send_message("hello"), None);
    assert!(!s.create_answer());
}

#[test]
fn local_description_absent_until_generated() {
    let mut s = WebRTC::new();
    assert!(s.create_offer());
    assert_eq!(s.get_local_description(), None);
    assert!(!s.local_description_ready("v=0 early".to_string()));
    assert_eq!(s.get_local_description(), None);
    s.connection_established();
    assert_eq!(s.get_local_description(), None);
    assert!(s.local_description_ready("v=0 offer".to_string()));
    assert_eq!(s.get_local_description(), Some("v=0 offer".to_string()));
}

#[test]
fn empty_local_description_is_not_kept() {
    let mut s = WebRTC::new();
    assert!(s.create_offer());
    s.connection_established();
    assert!(!s.local_description_ready(String::new()));
    assert_eq!(s.get_local_description(), None);
}

#[test]
fn offerer_reads_remote_as_answer() {
    let mut s = offering_session("v=0 offer");
    assert_eq!(
        s.set_remote_description("v=0 answer"),
        Some(RemotePlan { kind: DescriptionKind::Answer, create_connection: false })
    );
    s.remote_description_applied();
    assert!(!s.create_answer());
    assert!(!s.create_offer());
}

#[test]
fn offerer_without_connection_refuses_remote() {
    let mut s = WebRTC::new();
    assert!(s.create_offer());
    assert_eq!(s.set_remote_description("v=0 answer"), None);
}

#[test]
fn remote_first_makes_answerer() {
    let mut s = WebRTC::new();
    assert_eq!(
        s.set_remote_description("v=0 offer"),
        Some(RemotePlan { kind: DescriptionKind::Offer, create_connection: true })
    );
    assert!(!s.create_offer());
    assert!(!s.create_answer());
    s.connection_established();
    s.remote_description_applied();
    assert!(s.create_answer());
    assert!(!s.create_offer());
    assert_eq!(
        s.set_remote_description("v=0 offer again"),
        Some(RemotePlan { kind: DescriptionKind::Offer, create_connection: false })
    );
}

#[test]
fn empty_remote_description_is_refused() {
    let mut s = WebRTC::new();
    assert_eq!(s.set_remote_description(""), None);
    assert!(s.create_offer());
}

#[test]
fn second_offer_is_refused() {
    let mut s = offering_session("v=0 offer");
    assert!(!s.create_offer());
    assert_eq!(s.get_local_description(), Some("v=0 offer".to_string()));
}

#[test]
fn reading_messages_twice_agrees() {
    let mut s = open_session();
    s.receive_data(b"first".to_vec());
    let a = s.get_messages();
    let b = s.get_messages();
    assert_eq!(a, vec!["first".to_string()]);
    assert_eq!(a, b);
    let _ = s.send_message("between");
    assert_eq!(s.get_messages(), a);
}

#[test]
fn messages_keep_arrival_order() {
    let mut s = open_session();
    s.receive_data(b"A".to_vec());
    s.receive_data(b"B".to_vec());
    assert_eq!(s.get_messages(), vec!["A".to_string(), "B".to_string()]);
}

#[test]
fn received_text_is_decoded() {
    let mut s = open_session();
    s.receive_data(vec![0x68, 0xc3, 0xa9, 0x21]);
    assert_eq!(s.get_messages(), vec!["h\u{e9}!".to_string()]);
}

#[test]
fn invalid_utf8_is_dropped() {
    let mut s = open_session();
    s.receive_data(vec![0xff, 0xfe]);
    s.receive_data(vec![0xc3]);
    assert!(s.get_messages().is_empty());
    s.receive_data(Vec::new());
    assert_eq!(s.get_messages(), vec![String::new()]);
}

#[test]
fn send_before_open_is_noop() {
    let s = offering_session("v=0 offer");
    assert_eq!(s.send_message("ping"), None);
}

#[test]
fn send_after_open_gives_bytes() {
    let s = open_session();
    assert_eq!(s.send_message("ping"), Some(b"ping".to_vec()));
    assert_eq!(s.send_message("h\u{e9}"), Some(vec![0x68, 0xc3, 0xa9]));
}

#[test]
fn channel_needs_connection() {
    let mut s = WebRTC::new();
    s.channel_opened();
    assert_eq!(s.send_message("ping"), None);
    s.connection_established();
    s.channel_opened();
    assert_eq!(s.send_message("ping"), None);
}

#[test]
fn offer_answer_exchange() {
    let mut x = WebRTC::new();
    assert!(x.create_offer());
    x.connection_established();
    assert!(x.local_description_ready("v=0 offer-x".to_string()));
    let offer = x.get_local_description().unwrap();
    assert!(!offer.is_empty());

    let mut y = WebRTC::new();
    let plan = y.set_remote_description(&offer).unwrap();
    assert_eq!(plan.kind, DescriptionKind::Offer);
    assert!(plan.create_connection);
    y.connection_established();
    y.remote_description_applied();
    assert!(y.create_answer());
    assert!(y.local_description_ready("v=0 answer-y".to_string()));
    let answer = y.get_local_description().unwrap();
    assert!(!answer.is_empty());

    let plan = x.set_remote_description(&answer).unwrap();
    assert_eq!(plan.kind, DescriptionKind::Answer);
    assert!(!plan.create_connection);
    x.remote_description_applied();

    x.channel_opened();
    y.channel_opened();
    let ping = x.send_message("ping").unwrap();
    y.receive_data(ping);
    assert_eq!(y.get_messages(), vec!["ping".to_string()]);
    let pong = y.send_message("pong").unwrap();
    x.receive_data(pong);
    assert_eq!(x.get_messages(), vec!["pong".to_string()]);
}

#[test]
fn dropping_unopened_session() {
    let s = offering_session("v=0 offer");
    assert_eq!(s.send_message("never"), None);
    drop(s);
}

#[test]
fn failed_offer_before_connection_restores_fresh() {
    let mut s = WebRTC::new();
    assert!(s.create_offer());
    s.negotiation_failed();
    assert_eq!(
        s.set_remote_description("v=0 offer"),
        Some(RemotePlan { kind: DescriptionKind::Offer, create_connection: true })
    );
}

#[test]
fn failed_offer_after_connection_restores_fresh() {
    let mut s = WebRTC::new();
    assert!(s.create_offer());
    s.connection_established();
    s.channel_opened();
    s.negotiation_failed();
    assert_eq!(s.get_local_description(), None);
    assert_eq!(s.send_message("ping"), None);
    assert!(s.create_offer());
    s.negotiation_failed();
    assert!(s.set_remote_description("v=0 offer").is_some());
}

#[test]
fn failed_remote_before_connection_restores_fresh() {
    let mut s = WebRTC::new();
    assert!(s.set_remote_description("not a description").is_some());
    s.negotiation_failed();
    assert!(s.create_offer());
}

#[test]
fn failed_remote_after_connection_restores_fresh() {
    let mut s = WebRTC::new();
    assert!(s.set_remote_description("not a description").is_some());
    s.connection_established();
    s.negotiation_failed();
    assert!(!s.create_answer());
    assert!(s.create_offer());
}

#[test]
fn rejected_answer_keeps_offerer() {
    let mut s = offering_session("v=0 offer");
    assert!(s.set_remote_description("bad answer").is_some());
    s.negotiation_failed();
    assert_eq!(s.get_local_description(), Some("v=0 offer".to_string()));
    assert!(!s.create_offer());
    assert_eq!(
        s.set_remote_description("v=0 answer"),
        Some(RemotePlan { kind: DescriptionKind::Answer, create_connection: false })
    );
    s.remote_description_applied();
    s.channel_opened();
    assert_eq!(s.send_message("ok"), Some(b"ok".to_vec()));
}

#[test]
fn failure_without_step_changes_nothing() {
    let mut s = offering_session("v=0 offer");
    s.negotiation_failed();
    assert_eq!(s.get_local_description(), Some("v=0 offer".to_string()));
    assert!(!s.create_offer());
    let mut f = WebRTC::new();
    f.negotiation_failed();
    assert!(f.create_offer());
}

#[test]
fn blank_remote_description_is_refused() {
    let mut s = WebRTC::new();
    assert_eq!(s.set_remote_description("  \n\t"), None);
    assert_eq!(s.set_remote_description("\u{3000}\u{85}\u{a0}"), None);
    assert!(s.set_remote_description(" v=0\n").is_some());
}

#[test]
fn blank_text() {
    assert!(blank(""));
    assert!(blank(" \t\r\n\u{b}\u{c}"));
    assert!(blank("\u{2028}\u{2029}\u{202f}\u{205f}\u{1680}\u{2000}\u{200a}"));
    assert!(!blank("a"));
    assert!(!blank("  x  "));
    assert!(!blank("\u{200b}"));
}
