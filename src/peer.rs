use crate::codec::{get_capabilities, is_h264, CodecCapability};
use crate::lifecycle::{PeerState, Sessions};
use crate::registry::{alloc_step, all_live, Registry, RegistryError};
use vstd::prelude::*;
use vstd::string::StringExecFns;
use webrtc::peer_connection::peer_connection_state::RTCPeerConnectionState;
use webrtc::peer_connection::RTCPeerConnection;
use std::sync::Arc;
use webrtc::rtp_transceiver::rtp_codec::RTCRtpCodecCapability;
use webrtc::rtp_transceiver::RTCPFeedback;
use webrtc::track::track_local::track_local_static_sample::TrackLocalStaticSample;

verus! {

#[verifier::external_type_specification]
#[verifier::external_body]
pub struct ExRTCPeerConnection(RTCPeerConnection);

#[verifier::external_type_specification]
#[verifier::external_body]
pub struct ExTrackLocalStaticSample(TrackLocalStaticSample);

/// The character of decimal digit `d`.
pub open spec fn digit_char(d: nat) -> char {
    if d == 0 {
        '0'
    } else if d == 1 {
        '1'
    } else if d == 2 {
        '2'
    } else if d == 3 {
        '3'
    } else if d == 4 {
        '4'
    } else if d == 5 {
        '5'
    } else if d == 6 {
        '6'
    } else if d == 7 {
        '7'
    } else if d == 8 {
        '8'
    } else {
        '9'
    }
}

/// The decimal digits of `n`, most significant first, without leading zeros.
pub open spec fn decimal(n: nat) -> Seq<char>
    decreases n,
{
    if n < 10 {
        seq![digit_char(n)]
    } else {
        decimal(n / 10).push(digit_char(n % 10))
    }
}

/// The one-character string of decimal digit `d`.
fn digit_str(d: u32) -> (s: &'static str)
    requires
        d < 10,
    ensures
        s@ == seq![digit_char(d as nat)],
{
    match d {
        0 => {
            proof {
                reveal_strlit("0");
            }
            "0"
        },
        1 => {
            proof {
                reveal_strlit("1");
            }
            "1"
        },
        2 => {
            proof {
                reveal_strlit("2");
            }
            "2"
        },
        3 => {
            proof {
                reveal_strlit("3");
            }
            "3"
        },
        4 => {
            proof {
                reveal_strlit("4");
            }
            "4"
        },
        5 => {
            proof {
                reveal_strlit("5");
            }
            "5"
        },
        6 => {
            proof {
                reveal_strlit("6");
            }
            "6"
        },
        7 => {
            proof {
                reveal_strlit("7");
            }
            "7"
        },
        8 => {
            proof {
                reveal_strlit("8");
            }
            "8"
        },
        _ => {
            proof {
                reveal_strlit("9");
            }
            "9"
        },
    }
}

/// `n` written in decimal.
pub fn decimal_string(n: u32) -> (r: String)
    ensures
        r@ == decimal(n as nat),
    decreases n,
{
    if n < 10 {
        String::from_str(digit_str(n))
    } else {
        let mut r = decimal_string(n / 10);
        r.append(digit_str(n % 10));
        r
    }
}

/// Relies on `TrackLocalStaticSample::new`, which builds a sample track for
/// the codec, with `label` as both its track id and its stream id, without I/O.
#[verifier::external_body]
fn new_track(codec: &CodecCapability, label: &String) -> TrackLocalStaticSample {
    let rtcp_feedback = codec.rtcp_feedback.iter().map(
        |f| RTCPFeedback { typ: f.typ.clone(), parameter: f.parameter.clone() },
    ).collect();
    let capability = RTCRtpCodecCapability {
        mime_type: codec.mime_type.clone(),
        clock_rate: codec.clock_rate,
        channels: codec.channels,
        sdp_fmtp_line: codec.sdp_fmtp_line.clone(),
        rtcp_feedback,
    };
    TrackLocalStaticSample::new(capability, label.clone(), label.clone())
}

/// A media track with the label and codec it was built with.
pub struct MediaTrack {
    /// Track id and stream id of the track.
    pub label: String,
    pub codec: CodecCapability,
    pub sample: Arc<TrackLocalStaticSample>,
}

/// Creates an H.264 track whose track id and stream id are both its handle
/// in decimal, and registers it.
pub fn register_track(tracks: &mut Registry<MediaTrack>) -> (r: Result<u32, RegistryError>)
    requires
        old(tracks).wf(),
    ensures
        final(tracks).wf(),
        r is Err <==> all_live(old(tracks)@),
        match r {
            Ok(h) => {
                &&& alloc_step(old(tracks)@, h, final(tracks)@)
                &&& final(tracks)@[h].label@ == decimal(h as nat)
                &&& is_h264(final(tracks)@[h].codec)
            },
            Err(_) => final(tracks)@ == old(tracks)@,
        },
{
    match tracks.add(build_track) {
        Ok((h, _)) => Ok(h),
        Err(e) => Err(e),
    }
}

/// The track for handle `id`.
fn build_track(id: u32) -> (t: MediaTrack)
    ensures
        t.label@ == decimal(id as nat),
        is_h264(t.codec),
{
    let label = decimal_string(id);
    let codec = get_capabilities();
    let sample = new_track(&codec, &label);
    MediaTrack { label, codec, sample: Arc::new(sample) }
}

/// Relies on `RTCPeerConnection::connection_state`, which reads the state
/// that the connection holds now. It changes as negotiation goes on, so
/// nothing is claimed about which state comes back.
#[verifier::external_body]
fn current_state(pc: &RTCPeerConnection) -> (r: PeerState) {
    match pc.connection_state() {
        RTCPeerConnectionState::Unspecified => PeerState::Unspecified,
        RTCPeerConnectionState::New => PeerState::New,
        RTCPeerConnectionState::Connecting => PeerState::Connecting,
        RTCPeerConnectionState::Connected => PeerState::Connected,
        RTCPeerConnectionState::Disconnected => PeerState::Disconnected,
        RTCPeerConnectionState::Failed => PeerState::Failed,
        RTCPeerConnectionState::Closed => PeerState::Closed,
    }
}

impl Sessions<RTCPeerConnection> {
    /// The state-change observer of registration `token` of connection
    /// `id`: reads the connection's current state and removes it when that
    /// state is terminal. Leaves everything alone when that registration is
    /// not live.
    pub fn observe(&mut self, id: u32, token: u64) -> (removed: bool)
        requires
            old(self).wf(),
        ensures
            final(self).wf(),
            exists|s: PeerState| Self::change_step(*old(self), id, token, s, *final(self), removed),
            !old(self).holds(id, token) ==> !removed && final(self)@ == old(self)@,
    {
        let state = match self.get(id) {
            Some(pc) => current_state(pc),
            None => PeerState::Unspecified,
        };
        self.on_state_change(id, token, state)
    }

    /// The abandonment timeout of registration `token` of connection `id`:
    /// removes it when that registration is live, still `New`, and no answer
    /// was applied to it.
    pub fn reap(&mut self, id: u32, token: u64) -> (removed: bool)
        requires
            old(self).wf(),
        ensures
            final(self).wf(),
            exists|s: PeerState| Self::reap_step(*old(self), id, token, s, *final(self), removed),
            removed ==> old(self).holds(id, token) && !old(self).answered_handles().contains(id),
            !old(self).holds(id, token) ==> !removed && final(self)@ == old(self)@,
    {
        let state = match self.get(id) {
            Some(pc) => current_state(pc),
            None => PeerState::Unspecified,
        };
        self.reap_abandoned(id, token, state)
    }
}

} // verus!
