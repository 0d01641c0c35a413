use webrtc::api::media_engine::MediaEngine;
use webrtc::api::APIBuilder;
use webrtc::peer_connection::configuration::RTCConfiguration;
use webrtc::peer_connection::RTCPeerConnection;
use webrtc::track::track_local::TrackLocal;
use webrtcrust::lifecycle::Sessions;
use webrtcrust::peer::{decimal_string, register_track};
use webrtcrust::registry::Registry;

fn runtime() -> tokio::runtime::Runtime {
    tokio::runtime::Builder::new_multi_thread()
        .enable_all()
        .build()
        .unwrap()
}

async fn new_peer() -> RTCPeerConnection {
    let mut media_engine = MediaEngine::default();
    media_engine.register_default_codecs().unwrap();
    let api = APIBuilder::new().with_media_engine(media_engine).build();
    api.new_peer_connection(RTCConfiguration::default()).await.unwrap()
}

#[test]
fn observer_keeps_new_connection() {
    let rt = runtime();
    let pc = rt.block_on(new_peer());
    let mut s: Sessions<RTCPeerConnection> = Sessions::new();
    let (h, t, _) = s.register(|_, _| pc).unwrap();
    assert!(!s.observe(h, t));
    assert!(s.get(h).is_some());
    assert!(!s.observe(h + 1, t));
}

#[test]
fn observer_removes_closed_connection() {
    let rt = runtime();
    let pc = rt.block_on(new_peer());
    let mut s: Sessions<RTCPeerConnection> = Sessions::new();
    let (h, t, _) = s.register(|_, _| pc).unwrap();
    let conn = s.get(h).unwrap().clone();
    rt.block_on(conn.close()).unwrap();
    assert!(s.observe(h, t));
    assert!(s.get(h).is_none());
}

#[test]
fn reaper_removes_unanswered_new_connection() {
    let rt = runtime();
    let pc = rt.block_on(new_peer());
    let mut s: Sessions<RTCPeerConnection> = Sessions::new();
    let (h, t, _) = s.register(|_, _| pc).unwrap();
    assert!(s.reap(h, t));
    assert!(s.get(h).is_none());
    assert!(!s.reap(h, t));
}

#[test]
fn reaper_keeps_answered_connection() {
    let rt = runtime();
    let pc = rt.block_on(new_peer());
    let mut s: Sessions<RTCPeerConnection> = Sessions::new();
    let (h, t, _) = s.register(|_, _| pc).unwrap();
    assert!(s.accept_answer(h));
    assert!(!s.reap(h, t));
    assert!(s.get(h).is_some());
}

#[test]
fn hundred_connections_give_distinct_handles_and_offers() {
    let rt = runtime();
    let mut s: Sessions<RTCPeerConnection> = Sessions::new();
    let mut seen = std::collections::HashSet::new();
    for _ in 0..100 {
        let pc = rt.block_on(new_peer());
        let (h, t, _) = s.register(|_, _| pc).unwrap();
        assert!(seen.insert(h));
        let conn = s.get(h).unwrap().clone();
        let offer = rt.block_on(conn.create_offer(None)).unwrap();
        assert!(!offer.sdp.is_empty());
    }
    assert_eq!(s.len(), 100);
}

#[test]
fn tracks_are_named_by_their_handle() {
    let mut tracks = Registry::new();
    let mut last = 0;
    for _ in 0..12 {
        last = register_track(&mut tracks).unwrap();
    }
    assert_eq!(last, 11);
    let t = tracks.get(11).unwrap();
    assert_eq!(t.label, "11");
    assert_eq!(t.sample.id(), "11");
    assert_eq!(t.sample.stream_id(), "11");
    assert_eq!(t.sample.codec().mime_type, "video/H264");
    assert_eq!(t.sample.codec().clock_rate, 90000);
    assert_eq!(t.codec.mime_type, "video/H264");
    assert_eq!(tracks.get(0).unwrap().sample.id(), "0");
    assert_eq!(tracks.len(), 12);
}

#[test]
fn snapshot_after_two_tracks_lists_both() {
    let mut tracks = Registry::new();
    let a = register_track(&mut tracks).unwrap();
    let b = register_track(&mut tracks).unwrap();
    let mut ids: Vec<String> = tracks.iter().into_iter().map(|(_, t)| t.sample.id().to_string()).collect();
    ids.sort();
    assert_eq!(ids, vec![a.to_string(), b.to_string()]);
}

#[test]
fn decimal_strings() {
    assert_eq!(decimal_string(0), "0");
    assert_eq!(decimal_string(7), "7");
    assert_eq!(decimal_string(10), "10");
    assert_eq!(decimal_string(1234567890), "1234567890");
    assert_eq!(decimal_string(u32::MAX), "4294967295");
}
