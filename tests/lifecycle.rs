use webrtcrust::codec::{get_capabilities, H264_CLOCK_RATE, H264_PAYLOAD_TYPE};
use webrtcrust::lifecycle::{terminal, PeerState, Sessions};
use webrtcrust::registry::Registry;

#[test]
fn terminal_states() {
    assert!(terminal(PeerState::Disconnected));
    assert!(terminal(PeerState::Failed));
    assert!(terminal(PeerState::Closed));
    assert!(!terminal(PeerState::New));
    assert!(!terminal(PeerState::Connecting));
    assert!(!terminal(PeerState::Connected));
    assert!(!terminal(PeerState::Unspecified));
}

fn register<C>(s: &mut Sessions<C>, c: C) -> (u32, u64) {
    let (h, t, _) = s.register(|_, _| c).unwrap();
    (h, t)
}

#[test]
fn state_change_to_terminal_removes_the_connection() {
    let mut s: Sessions<&str> = Sessions::new();
    let (h, t) = register(&mut s, "peer");
    assert!(!s.on_state_change(h, t, PeerState::Connecting));
    assert!(!s.on_state_change(h, t, PeerState::Connected));
    assert!(s.get(h).is_some());
    assert!(s.on_state_change(h, t, PeerState::Failed));
    assert!(s.get(h).is_none());
    assert_eq!(s.len(), 0);
    assert!(!s.on_state_change(h, t, PeerState::Closed));
}

#[test]
fn state_change_on_unknown_handle_does_nothing() {
    let mut s: Sessions<&str> = Sessions::new();
    let (_, t) = register(&mut s, "peer");
    assert!(!s.on_state_change(7, t, PeerState::Disconnected));
    assert_eq!(s.len(), 1);
}

#[test]
fn register_hands_out_handle_token_and_entry() {
    let mut s: Sessions<(u32, u64)> = Sessions::new();
    let (h, t, entry) = s.register(|id, token| (id, token)).unwrap();
    assert_eq!(**entry, (h, t));
    assert_eq!((h, t), (0, 0));
    let (h2, t2, _) = s.register(|id, token| (id, token)).unwrap();
    assert_eq!((h2, t2), (1, 1));
    assert_eq!(s.token(h2), Some(1));
    assert_eq!(s.token(9), None);
}

#[test]
fn abandoned_connection_is_removed() {
    let mut s: Sessions<&str> = Sessions::new();
    let (h, t) = register(&mut s, "peer");
    assert!(s.reap_abandoned(h, t, PeerState::New));
    assert!(s.get(h).is_none());
    assert!(!s.reap_abandoned(h, t, PeerState::New));
}

#[test]
fn timeout_keeps_connection_that_left_new() {
    let mut s: Sessions<&str> = Sessions::new();
    let (h, t) = register(&mut s, "peer");
    assert!(!s.reap_abandoned(h, t, PeerState::Connected));
    assert!(s.get(h).is_some());
}

#[test]
fn stale_timeout_spares_a_later_registration() {
    let mut s: Sessions<&str> = Sessions::new();
    let (h, t) = register(&mut s, "first");
    assert!(s.on_state_change(h, t, PeerState::Failed));
    let (_, t2) = register(&mut s, "second");
    assert_ne!(t2, t);
    assert!(!s.reap_abandoned(h, t, PeerState::New));
    assert!(!s.on_state_change(h, t, PeerState::Closed));
    assert_eq!(s.len(), 1);
}

#[test]
fn answer_before_timeout_keeps_connection() {
    let mut s: Sessions<&str> = Sessions::new();
    let (h, t) = register(&mut s, "peer");
    assert!(s.accept_answer(h));
    assert!(!s.reap_abandoned(h, t, PeerState::New));
    assert!(s.get(h).is_some());
}

#[test]
fn answer_after_timeout_is_ignored() {
    let mut s: Sessions<&str> = Sessions::new();
    let (h, t) = register(&mut s, "peer");
    assert!(s.reap_abandoned(h, t, PeerState::New));
    assert!(!s.accept_answer(h));
    assert!(s.get(h).is_none());
}

#[test]
fn withdrawn_answer_lets_the_timeout_reap() {
    let mut s: Sessions<&str> = Sessions::new();
    let (h, t) = register(&mut s, "peer");
    assert!(s.accept_answer(h));
    assert!(s.withdraw_answer(h, t));
    assert!(s.reap_abandoned(h, t, PeerState::New));
    assert!(!s.withdraw_answer(h, t));
}

#[test]
fn answer_on_unknown_handle_is_ignored() {
    let mut s: Sessions<&str> = Sessions::new();
    assert!(!s.accept_answer(5));
    assert_eq!(s.len(), 0);
}

#[test]
fn reused_handle_starts_without_answer() {
    let mut s: Sessions<u32> = Sessions::new();
    let (h, t) = register(&mut s, 1);
    assert!(s.accept_answer(h));
    assert!(s.on_state_change(h, t, PeerState::Closed));
    let (h2, t2) = register(&mut s, 2);
    assert_ne!(h2, h);
    assert!(s.reap_abandoned(h2, t2, PeerState::New));
}

#[test]
fn frame_for_missing_track_finds_nothing() {
    let mut tracks: Registry<u32> = Registry::new();
    tracks.add(|id| id).unwrap();
    assert!(tracks.get(9).is_none());
    assert_eq!(tracks.len(), 1);
}

#[test]
fn new_connection_sees_both_tracks() {
    let mut tracks: Registry<&str> = Registry::new();
    let a = tracks.add(|_| "A").unwrap().0;
    let b = tracks.add(|_| "B").unwrap().0;
    let mut s: Sessions<Vec<&str>> = Sessions::new();
    let attached: Vec<&str> = tracks.iter().into_iter().map(|(_, t)| **t).collect();
    let (h, _, _) = s.register(move |_, _| attached).unwrap();
    let conn = s.get(h).unwrap();
    assert!(conn.contains(&"A"));
    assert!(conn.contains(&"B"));
    assert_ne!(a, b);
}

#[test]
fn hundred_connections_get_distinct_handles() {
    let mut s: Sessions<u32> = Sessions::new();
    let mut seen = std::collections::HashSet::new();
    for _ in 0..100 {
        let (h, _) = register(&mut s, 0);
        assert!(seen.insert(h));
    }
    assert_eq!(s.len(), 100);
}

#[test]
fn h264_capability() {
    let c = get_capabilities();
    assert_eq!(c.mime_type, "video/H264");
    assert_eq!(c.clock_rate, 90000);
    assert_eq!(c.clock_rate, H264_CLOCK_RATE);
    assert_eq!(c.channels, 0);
    assert!(c.rtcp_feedback.is_empty());
    assert_eq!(
        c.sdp_fmtp_line,
        "level-asymmetry-allowed=1;packetization-mode=1;profile-level-id=42e01f"
    );
    assert_eq!(H264_PAYLOAD_TYPE, 96);
}
