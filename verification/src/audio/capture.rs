//! The recording worker's decisions: push-to-talk start and stop.
use vstd::prelude::*;

use crate::pipeline::{PillState, Status};
use crate::text::{owned, push_str};

verus! {

/// A push-to-talk command.
#[derive(PartialEq, Eq, Structural, Clone, Copy, Debug)]
pub enum AudioCmd {
    Start,
    StopAndProcess,
}

/// Where the recording worker stands.
#[derive(PartialEq, Eq, Structural, Clone, Copy, Debug)]
pub enum Capture {
    /// No recording.
    Idle,
    /// The microphone is being opened.
    Opening,
    /// Recording.
    Recording,
}

/// What happened since the last step.
pub enum CaptureEvent {
    Command(AudioCmd),
    /// The microphone opened, or failed to with this message.
    Opened(Result<(), String>),
}

/// Outside work for a step.
#[derive(PartialEq, Eq, Structural, Clone, Copy, Debug)]
pub enum CaptureWork {
    /// Open the microphone and start recording.
    Open,
    /// Stop the stream and hand the recording to the dictation pipeline.
    StopAndSend,
}

/// What a step asks for: a status, then work.
pub struct CaptureStep {
    pub status: Option<Status>,
    pub work: Option<CaptureWork>,
}

/// The next state, the status reported (if any) and the work asked for (if
/// any). Starting while recording, or stopping while not, does nothing.
pub open spec fn capture_next(c: Capture, e: CaptureEvent) -> (
    Capture,
    Option<(PillState, Option<Seq<char>>)>,
    Option<CaptureWork>,
) {
    match (c, e) {
        (Capture::Idle, CaptureEvent::Command(AudioCmd::Start)) => (
            Capture::Opening,
            None,
            Some(CaptureWork::Open),
        ),
        (Capture::Opening, CaptureEvent::Opened(Ok(()))) => (
            Capture::Recording,
            Some((PillState::Recording, None)),
            None,
        ),
        (Capture::Opening, CaptureEvent::Opened(Err(msg))) => (
            Capture::Idle,
            Some((PillState::Error, Some("mic: "@ + msg@))),
            None,
        ),
        (Capture::Recording, CaptureEvent::Command(AudioCmd::StopAndProcess)) => (
            Capture::Idle,
            None,
            Some(CaptureWork::StopAndSend),
        ),
        _ => (c, None, None),
    }
}

impl Capture {
    /// One step of the recording worker (see [`capture_next`]).
    pub fn step(self, event: CaptureEvent) -> (r: (Capture, CaptureStep))
        ensures
            ({
                let (c, st, w) = capture_next(self, event);
                &&& r.0 == c
                &&& match r.1.status {
                    Some(s) => st == Some(s@),
                    None => st is None,
                }
                &&& r.1.work == w
            }),
    {
        match (self, event) {
            (Capture::Idle, CaptureEvent::Command(AudioCmd::Start)) => (
                Capture::Opening,
                CaptureStep { status: None, work: Some(CaptureWork::Open) },
            ),
            (Capture::Opening, CaptureEvent::Opened(Ok(()))) => (
                Capture::Recording,
                CaptureStep {
                    status: Some(Status { state: PillState::Recording, detail: None }),
                    work: None,
                },
            ),
            (Capture::Opening, CaptureEvent::Opened(Err(msg))) => {
                let mut detail = owned("mic: ");
                push_str(&mut detail, msg.as_str());
                (
                    Capture::Idle,
                    CaptureStep {
                        status: Some(Status { state: PillState::Error, detail: Some(detail) }),
                        work: None,
                    },
                )
            },
            (Capture::Recording, CaptureEvent::Command(AudioCmd::StopAndProcess)) => (
                Capture::Idle,
                CaptureStep { status: None, work: Some(CaptureWork::StopAndSend) },
            ),
            (c, _) => (c, CaptureStep { status: None, work: None }),
        }
    }
}

/// Holding the key while recording does not open the microphone twice, and
/// releasing it when nothing records does nothing.
pub proof fn law_push_to_talk_idempotent()
    ensures
        capture_next(Capture::Recording, CaptureEvent::Command(AudioCmd::Start)) == (
            Capture::Recording,
            None::<(PillState, Option<Seq<char>>)>,
            None::<CaptureWork>,
        ),
        capture_next(Capture::Idle, CaptureEvent::Command(AudioCmd::StopAndProcess)) == (
            Capture::Idle,
            None::<(PillState, Option<Seq<char>>)>,
            None::<CaptureWork>,
        ),
{
}

/// A press then a release (with the microphone opening) records once and
/// hands exactly one recording on.
pub proof fn law_press_release_records_once()
    ensures
        ({
            let (c1, s1, w1) = capture_next(Capture::Idle, CaptureEvent::Command(AudioCmd::Start));
            let (c2, s2, w2) = capture_next(c1, CaptureEvent::Opened(Ok(())));
            let (c3, s3, w3) = capture_next(c2, CaptureEvent::Command(AudioCmd::StopAndProcess));
            &&& w1 == Some(CaptureWork::Open)
            &&& s2 == Some((PillState::Recording, None::<Seq<char>>))
            &&& w3 == Some(CaptureWork::StopAndSend)
            &&& c3 == Capture::Idle
        }),
{
}

/// The number of frames of `channels` samples in `len` samples, the last one
/// possibly short.
pub open spec fn frame_count(len: int, channels: int) -> int {
    len / channels + if len % channels > 0 {
        1int
    } else {
        0int
    }
}

/// The first channel of interleaved audio: the first sample of each frame of
/// `channels` samples (the last frame may be short).
pub open spec fn first_channel_of<T>(data: Seq<T>, channels: int) -> Seq<T> {
    Seq::new(frame_count(data.len() as int, channels) as nat, |i: int| data[i * channels])
}

proof fn lemma_frame_start(len: int, channels: int, j: int)
    requires
        channels > 0,
        len >= 0,
        0 <= j < frame_count(len, channels),
    ensures
        0 <= j * channels < len,
{
    let q = len / channels;
    let r = len % channels;
    assert(len == q * channels + r && 0 <= r < channels) by (nonlinear_arith)
        requires
            channels > 0,
            q == len / channels,
            r == len % channels,
    ;
    if j < q {
        assert(j * channels < len && 0 <= j * channels) by (nonlinear_arith)
            requires
                0 <= j < q,
                len == q * channels + r,
                r >= 0,
                channels > 0,
        ;
    } else {
        assert(j * channels < len && 0 <= j * channels) by (nonlinear_arith)
            requires
                j == q,
                q >= 0,
                len == q * channels + r,
                r > 0,
                channels > 0,
        ;
    }
}

/// Takes channel 0 of interleaved frames; the caller converts the samples.
pub fn first_channel<T: Copy>(data: &[T], channels: usize) -> (r: Vec<T>)
    requires
        channels > 0,
    ensures
        r@ == first_channel_of(data@, channels as int),
{
    let q = data.len() / channels;
    let extra: usize = if data.len() % channels > 0 {
        1
    } else {
        0
    };
    proof {
        if extra == 1 {
            assert(channels >= 2);
            assert(q <= data.len() / 2) by (nonlinear_arith)
                requires
                    channels >= 2,
                    q == data.len() / channels,
            ;
        }
    }
    let frames = q + extra;
    let mut r: Vec<T> = Vec::new();
    let mut j: usize = 0;
    let mut at: usize = 0;
    while j < frames
        invariant
            channels > 0,
            frames == frame_count(data@.len() as int, channels as int),
            j <= frames,
            j < frames ==> at == j * channels,
            r@.len() == j,
            forall|i: int| 0 <= i < j ==> #[trigger] r@[i] == data@[i * channels],
        decreases frames - j,
    {
        proof {
            lemma_frame_start(data@.len() as int, channels as int, j as int);
        }
        r.push(data[at]);
        j = j + 1;
        if j < frames {
            proof {
                lemma_frame_start(data@.len() as int, channels as int, j as int);
                assert(j * channels == at + channels) by (nonlinear_arith)
                    requires
                        at == (j - 1) * channels,
                ;
            }
            at = at + channels;
        }
    }
    assert(r@ =~= first_channel_of(data@, channels as int));
    r
}

} // verus!
