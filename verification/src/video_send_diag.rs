//! Facts about a video message that is being sent.
use vstd::prelude::*;

verus! {

/// One encoded picture.
#[derive(Debug)]
pub struct EncodedVideoFrame {
    pub data: Vec<u8>,
    pub key: bool,
    pub pts: i64,
}

/// The pictures of a video message, by codec.
#[derive(Debug)]
pub enum VideoFrames {
    Vp8s(Vec<EncodedVideoFrame>),
    Vp9s(Vec<EncodedVideoFrame>),
    Av1s(Vec<EncodedVideoFrame>),
    H264s(Vec<EncodedVideoFrame>),
    H265s(Vec<EncodedVideoFrame>),
    Rgb,
    Yuv,
    /// A codec that a newer peer may use.
    Unknown,
}

/// A video message.
#[derive(Debug)]
pub struct VideoFrame {
    pub display: i32,
    pub union: Option<VideoFrames>,
}

/// What is noted of a video message.
#[derive(Clone, Copy, Debug)]
pub struct VideoSendDiag {
    pub display: i32,
    pub codec: &'static str,
    pub keyframe: bool,
    pub packet_count: usize,
    pub payload_bytes: u64,
    pub wire_bytes: u64,
    pub first_pts: Option<i64>,
    pub last_pts: Option<i64>,
}

/// The encoded pictures of a message.
pub open spec fn encoded(union: Option<VideoFrames>) -> Seq<EncodedVideoFrame> {
    match union {
        Some(VideoFrames::Vp8s(frames)) => frames@,
        Some(VideoFrames::Vp9s(frames)) => frames@,
        Some(VideoFrames::Av1s(frames)) => frames@,
        Some(VideoFrames::H264s(frames)) => frames@,
        Some(VideoFrames::H265s(frames)) => frames@,
        _ => Seq::empty(),
    }
}

/// The name of a codec.
pub open spec fn codec_name(union: Option<VideoFrames>) -> Seq<char> {
    match union {
        Some(VideoFrames::Vp8s(_)) => "VP8"@,
        Some(VideoFrames::Vp9s(_)) => "VP9"@,
        Some(VideoFrames::Av1s(_)) => "AV1"@,
        Some(VideoFrames::H264s(_)) => "H264"@,
        Some(VideoFrames::H265s(_)) => "H265"@,
        Some(VideoFrames::Rgb) => "RGB"@,
        Some(VideoFrames::Yuv) => "YUV"@,
        Some(VideoFrames::Unknown) => "UNKNOWN"@,
        None => "NONE"@,
    }
}

/// The bytes of the pictures.
pub open spec fn payload(frames: Seq<EncodedVideoFrame>) -> nat
    decreases frames.len(),
{
    if frames.len() == 0 {
        0
    } else {
        payload(frames.drop_last()) + frames.last().data@.len()
    }
}

proof fn lemma_payload_prefix(frames: Seq<EncodedVideoFrame>, k: int)
    requires
        0 <= k <= frames.len(),
    ensures
        payload(frames.take(k)) <= payload(frames),
    decreases frames.len(),
{
    if k < frames.len() {
        lemma_payload_prefix(frames.drop_last(), k);
        assert(frames.drop_last().take(k) =~= frames.take(k));
    } else {
        assert(frames.take(k) =~= frames);
    }
}

/// Whether the facts are those of a message.
pub open spec fn is_diag_of(diag: VideoSendDiag, frame: VideoFrame, wire_bytes: u64) -> bool {
    let frames = encoded(frame.union);
    &&& diag.display == frame.display
    &&& diag.codec@ == codec_name(frame.union)
    &&& diag.keyframe == exists|i: int| 0 <= i < frames.len() && (#[trigger] frames[i]).key
    &&& diag.packet_count == frames.len()
    &&& diag.payload_bytes == payload(frames)
    &&& diag.wire_bytes == wire_bytes
    &&& diag.first_pts == (if frames.len() == 0 {
        None
    } else {
        Some(frames.first().pts)
    })
    &&& diag.last_pts == (if frames.len() == 0 {
        None
    } else {
        Some(frames.last().pts)
    })
}

/// Collects the facts about a video message. `wire_bytes` is its size as it is
/// sent.
pub fn extract_video_send_diag(video_frame: &VideoFrame, wire_bytes: u64) -> (r: VideoSendDiag)
    requires
        payload(encoded(video_frame.union)) <= u64::MAX,
    ensures
        is_diag_of(r, *video_frame, wire_bytes),
{
    let none: Vec<EncodedVideoFrame> = Vec::new();
    let (codec, frames): (&'static str, &Vec<EncodedVideoFrame>) = match &video_frame.union {
        Some(VideoFrames::Vp8s(frames)) => ("VP8", frames),
        Some(VideoFrames::Vp9s(frames)) => ("VP9", frames),
        Some(VideoFrames::Av1s(frames)) => ("AV1", frames),
        Some(VideoFrames::H264s(frames)) => ("H264", frames),
        Some(VideoFrames::H265s(frames)) => ("H265", frames),
        Some(VideoFrames::Rgb) => ("RGB", &none),
        Some(VideoFrames::Yuv) => ("YUV", &none),
        Some(VideoFrames::Unknown) => ("UNKNOWN", &none),
        None => ("NONE", &none),
    };
    assert(frames@ =~= encoded(video_frame.union));
    let mut keyframe = false;
    let mut payload_bytes: u64 = 0;
    let mut i: usize = 0;
    while i < frames.len()
        invariant
            i <= frames.len(),
            payload(frames@) <= u64::MAX,
            payload_bytes == payload(frames@.take(i as int)),
            keyframe == exists|k: int| 0 <= k < i && (#[trigger] frames@[k]).key,
        decreases frames.len() - i,
    {
        proof {
            assert(frames@.take(i + 1).drop_last() =~= frames@.take(i as int));
            lemma_payload_prefix(frames@, i + 1);
        }
        if frames[i].key {
            keyframe = true;
        }
        payload_bytes = payload_bytes + frames[i].data.len() as u64;
        i = i + 1;
    }
    assert(frames@.take(i as int) =~= frames@);
    let first_pts: Option<i64> = if frames.len() > 0 {
        Some(frames[0].pts)
    } else {
        None
    };
    let last_pts: Option<i64> = if frames.len() > 0 {
        Some(frames[frames.len() - 1].pts)
    } else {
        None
    };
    VideoSendDiag {
        display: video_frame.display,
        codec,
        keyframe,
        packet_count: frames.len(),
        payload_bytes,
        wire_bytes,
        first_pts,
        last_pts,
    }
}

/// Numbers the video messages while a test runs.
#[derive(Clone, Copy, Debug)]
pub struct VideoSendDiagnostics {
    pub enabled: bool,
    pub sequence: u64,
}

impl VideoSendDiagnostics {
    /// Diagnostics that have seen nothing.
    pub fn new(enabled: bool) -> (r: Self)
        ensures
            r == (VideoSendDiagnostics { enabled, sequence: 0 }),
    {
        VideoSendDiagnostics { enabled, sequence: 0 }
    }

    /// The facts about a message that is about to be sent, and its number. Nothing
    /// is noted outside a test or of a message without video.
    pub fn start(&mut self, video_frame: Option<&VideoFrame>, wire_bytes: u64) -> (r: Option<
        (u64, VideoSendDiag),
    >)
        requires
            video_frame matches Some(frame) ==> payload(encoded(frame.union)) <= u64::MAX,
        ensures
            r is Some <==> old(self).enabled && video_frame is Some,
            final(self).enabled == old(self).enabled,
            r is None ==> final(self).sequence == old(self).sequence,
            r matches Some((sequence, diag)) ==> sequence == final(self).sequence
                && sequence == (if old(self).sequence == u64::MAX {
                0
            } else {
                (old(self).sequence + 1) as u64
            }) && is_diag_of(diag, *video_frame->0, wire_bytes),
    {
        if !self.enabled {
            return None;
        }
        match video_frame {
            Some(frame) => {
                let diag = extract_video_send_diag(frame, wire_bytes);
                self.sequence = self.sequence.wrapping_add(1);
                Some((self.sequence, diag))
            },
            None => None,
        }
    }
}

/// The bytes of pictures add up, and one picture counts with the length of its data.
pub proof fn law_payload_adds_up(a: Seq<EncodedVideoFrame>, b: Seq<EncodedVideoFrame>)
    ensures
        payload(a + b) == payload(a) + payload(b),
        b.len() == 1 ==> payload(b) == b[0].data@.len(),
    decreases b.len(),
{
    if b.len() == 0 {
        assert(a + b =~= a);
    } else {
        law_payload_adds_up(a, b.drop_last());
        assert((a + b).drop_last() =~= a + b.drop_last());
        if b.len() == 1 {
            assert(b.drop_last().len() == 0);
        }
    }
}

/// A message of each encoded kind is told under its codec with the pictures that it
/// holds; the other kinds are told under their names and hold none.
pub proof fn law_codecs_and_their_pictures(frames: Vec<EncodedVideoFrame>)
    ensures
        encoded(Some(VideoFrames::Vp8s(frames))) == frames@ && codec_name(
            Some(VideoFrames::Vp8s(frames)),
        ) == "VP8"@,
        encoded(Some(VideoFrames::Vp9s(frames))) == frames@ && codec_name(
            Some(VideoFrames::Vp9s(frames)),
        ) == "VP9"@,
        encoded(Some(VideoFrames::Av1s(frames))) == frames@ && codec_name(
            Some(VideoFrames::Av1s(frames)),
        ) == "AV1"@,
        encoded(Some(VideoFrames::H264s(frames))) == frames@ && codec_name(
            Some(VideoFrames::H264s(frames)),
        ) == "H264"@,
        encoded(Some(VideoFrames::H265s(frames))) == frames@ && codec_name(
            Some(VideoFrames::H265s(frames)),
        ) == "H265"@,
        encoded(Some(VideoFrames::Rgb)).len() == 0 && encoded(Some(VideoFrames::Yuv)).len() == 0
            && encoded(Some(VideoFrames::Unknown)).len() == 0 && encoded(None).len() == 0,
{
}

/// What is noted of a message counts all its pictures: it is a key message as soon as
/// one of them is a key picture, and tells the times of the first and the last.
pub proof fn law_noted_facts_cover_all_pictures(
    diag: VideoSendDiag,
    frame: VideoFrame,
    wire_bytes: u64,
    i: int,
)
    requires
        is_diag_of(diag, frame, wire_bytes),
        0 <= i < encoded(frame.union).len(),
    ensures
        diag.packet_count == encoded(frame.union).len() && diag.packet_count > 0,
        encoded(frame.union)[i].key ==> diag.keyframe,
        diag.first_pts == Some(encoded(frame.union)[0].pts),
        diag.last_pts == Some(encoded(frame.union)[encoded(frame.union).len() - 1].pts),
        diag.payload_bytes >= encoded(frame.union)[i].data@.len(),
        diag.wire_bytes == wire_bytes && diag.display == frame.display,
{
    let all = encoded(frame.union);
    let front = all.take(i);
    let own = seq![all[i]];
    let back = all.skip(i + 1);
    assert(all =~= front + own + back);
    law_payload_adds_up(front + own, back);
    law_payload_adds_up(front, own);
}

} // verus!
