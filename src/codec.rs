use vstd::prelude::*;

verus! {

/// RTP payload type under which the video codec is registered.
pub const H264_PAYLOAD_TYPE: u8 = 96;

/// RTP clock rate of H.264 video, in Hz.
pub const H264_CLOCK_RATE: u32 = 90000;

/// UDP port on which the peer connection service listens for all connections.
pub const UDP_PORT: u16 = 36363;

/// One RTCP feedback mechanism that a codec supports.
pub struct RtcpFeedback {
    pub typ: String,
    pub parameter: String,
}

/// The codec that every media track carries, as plain values.
pub struct CodecCapability {
    pub mime_type: String,
    pub clock_rate: u32,
    pub channels: u16,
    pub sdp_fmtp_line: String,
    pub rtcp_feedback: Vec<RtcpFeedback>,
}

/// `c` is the H.264 capability that `get_capabilities` returns.
pub open spec fn is_h264(c: CodecCapability) -> bool {
    &&& c.mime_type@ == h264_mime()
    &&& c.clock_rate == H264_CLOCK_RATE
    &&& c.channels == 0
    &&& c.sdp_fmtp_line@ == h264_fmtp()
    &&& c.rtcp_feedback@.len() == 0
}

/// MIME type of H.264 video.
pub open spec fn h264_mime() -> Seq<char> {
    seq!['v', 'i', 'd', 'e', 'o', '/', 'H', '2', '6', '4']
}

/// Format parameters: constrained baseline profile, level 3.1, packetization mode 1.
pub open spec fn h264_fmtp() -> Seq<char> {
    "level-asymmetry-allowed=1;packetization-mode=1;profile-level-id=42e01f"@
}

/// The H.264 capability used for every track and registered with the media engine.
pub fn get_capabilities() -> (r: CodecCapability)
    ensures
        is_h264(r),
{
    proof {
        reveal_strlit("video/H264");
    }
    let mime_type = "video/H264".to_owned();
    assert(mime_type@ =~= h264_mime());
    CodecCapability {
        mime_type,
        clock_rate: H264_CLOCK_RATE,
        channels: 0,
        sdp_fmtp_line: "level-asymmetry-allowed=1;packetization-mode=1;profile-level-id=42e01f".to_owned(),
        rtcp_feedback: Vec::new(),
    }
}

} // verus!
