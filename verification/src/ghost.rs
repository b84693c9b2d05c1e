//! Ghost mode: continuous capture of a meeting, then one note per meeting.
//!
//! The worker that owns the recording, the voice-activity detector, Whisper
//! and the diarizer runs a loop around [`Ghost::step`]. Turning a finished
//! session into a note goes through the functions below: who spoke, when,
//! what the transcript and summary read, and what the note holds.
use vstd::prelude::*;

use crate::audio::vad::VAD_SAMPLE_RATE;
use crate::config::{join, join_path, Config};
use crate::pipeline::{PillState, Status};
use crate::pkm::obsidian::{MeetingNote, TranscriptLine};
use crate::stamp::{format_stamp, session_stamp, Stamp};
use crate::text::{
    decimal, joined, opt_view, owned, padded, push_decimal, push_padded, push_str,
    string_views,
};

verus! {

/// A command for the ghost worker.
#[derive(PartialEq, Eq, Structural, Clone, Copy, Debug)]
pub enum GhostCmd {
    Toggle,
}

// ---------------------------------------------------------------------------
// Which input to record.
// ---------------------------------------------------------------------------

/// The input meeting capture records: the ghost device (e.g. a mic +
/// loopback aggregate), else the dictation mic, else (none) the default.
pub open spec fn ghost_input(cfg: &Config) -> Option<Seq<char>> {
    match cfg.ghost_input_device {
        Some(d) => Some(d@),
        None => opt_view(cfg.input_device),
    }
}

/// Ghost input: explicit ghost device (e.g. mic+BlackHole aggregate) >
/// the dictation mic > system default (`None`).
pub fn ghost_device(cfg: &Config) -> (r: Option<&str>)
    ensures
        match r {
            Some(s) => ghost_input(cfg) == Some(s@),
            None => ghost_input(cfg) is None,
        },
{
    match &cfg.ghost_input_device {
        Some(d) => Some(d.as_str()),
        None => match &cfg.input_device {
            Some(d) => Some(d.as_str()),
            None => None,
        },
    }
}

/// The note's source line: the recorded input's name, or "default mic".
pub fn note_source(cfg: &Config) -> (r: String)
    ensures
        r@ == match ghost_input(cfg) {
            Some(d) => d,
            None => "default mic"@,
        },
{
    match ghost_device(cfg) {
        Some(d) => owned(d),
        None => owned("default mic"),
    }
}

// ---------------------------------------------------------------------------
// Spooling a session to disk.
// ---------------------------------------------------------------------------

/// Where capture sessions spool their speech, given the home directory
/// (empty without one): `~/.config/shout/sessions`.
pub fn sessions_root(home: &str) -> (r: String)
    ensures
        r@ == join_path(home@, ".config/shout/sessions"@),
{
    join(home, ".config/shout/sessions")
}

/// A session's folder name: its start as `%Y-%m-%d-%H%M%S`.
pub fn session_dir_name(started_at: &Stamp) -> (r: String)
    ensures
        r@ == session_stamp(started_at@),
{
    let r = format_stamp(started_at, "%Y-%m-%d-%H%M%S");
    proof {
        assert("%Y-%m-%d-%H%M%S"@.len() == 15) by {
            reveal_strlit("%Y-%m-%d-%H%M%S");
        }
        assert("%Y-%m-%d-%H%M"@.len() == 13) by {
            reveal_strlit("%Y-%m-%d-%H%M");
        }
        assert("%Y-%m-%dT%H:%M"@.len() == 14) by {
            reveal_strlit("%Y-%m-%dT%H:%M");
        }
    }
    r
}

/// The file an utterance is spooled to: `seg` and its index as four digits
/// (more when needed), then `.wav`.
pub fn segment_file_name(index: u64) -> (r: String)
    ensures
        r@ == "seg"@ + padded(index as nat, 4) + ".wav"@,
{
    let mut r = owned("seg");
    push_padded(&mut r, index, 4);
    push_str(&mut r, ".wav");
    r
}

// ---------------------------------------------------------------------------
// From transcribed utterances to a note.
// ---------------------------------------------------------------------------

/// A session's length in whole minutes, rounded half up, from its length in
/// seconds (a negative length counts as none); at most `u32::MAX`.
pub open spec fn minutes_of(secs: int) -> int {
    let s = if secs < 0 {
        0
    } else {
        secs
    };
    let m = s / 60 + if s % 60 >= 30 {
        1int
    } else {
        0int
    };
    if m > u32::MAX {
        u32::MAX as int
    } else {
        m
    }
}

/// A session's length in whole minutes (see [`minutes_of`]).
pub fn duration_minutes(secs: i64) -> (r: u32)
    ensures
        r == minutes_of(secs as int),
{
    let s: i64 = if secs < 0 {
        0
    } else {
        secs
    };
    let m: i64 = s / 60 + if s % 60 >= 30 {
        1
    } else {
        0
    };
    if m > u32::MAX as i64 {
        u32::MAX
    } else {
        m as u32
    }
}

/// A meeting's length is its nearest whole minute: for any length from zero
/// up to the most minutes a `u32` holds, the minutes `m` given satisfy
/// `60·m − 30 <= secs < 60·m + 30` (half a minute rounds up), so they never
/// wrap round.
pub proof fn law_duration_is_nearest_minute(secs: int)
    requires
        0 <= secs < 60 * (u32::MAX as int) - 30,
    ensures
        60 * minutes_of(secs) - 30 <= secs < 60 * minutes_of(secs) + 30,
{
}

/// A longer meeting never has fewer minutes than a shorter one.
pub proof fn law_duration_is_monotone(a: int, b: int)
    requires
        a <= b,
    ensures
        minutes_of(a) <= minutes_of(b),
{
}

/// A session without speech gives no note.
pub fn check_speech(chunk_count: usize) -> (r: Result<(), String>)
    ensures
        chunk_count == 0 <==> r is Err,
        r matches Err(e) ==> e@ == "no speech detected in this session"@,
{
    if chunk_count == 0 {
        Err(owned("no speech detected in this session"))
    } else {
        Ok(())
    }
}

/// An utterance Whisper heard: where it starts (in samples of the session's
/// 16 kHz timeline), which speech chunk it came from, and its text.
pub struct Utterance {
    pub start_sample: i64,
    pub chunk: usize,
    pub text: String,
}

/// The utterances of a session: the chunks whose transcript is not empty, in
/// order, with their start and index.
pub open spec fn spoken(starts: Seq<i64>, texts: Seq<String>, i: int) -> Seq<(i64, int, Seq<char>)>
    decreases i,
{
    if i <= 0 {
        Seq::empty()
    } else {
        let rest = spoken(starts, texts, i - 1);
        if texts[i - 1]@.len() > 0 {
            rest.push((starts[i - 1], i - 1, texts[i - 1]@))
        } else {
            rest
        }
    }
}

/// The contents of utterances.
pub open spec fn utterance_views(us: Seq<Utterance>) -> Seq<(i64, int, Seq<char>)> {
    us.map_values(|u: Utterance| (u.start_sample, u.chunk as int, u.text@))
}

/// Keeps the chunks whose transcript is not empty, with their start and index.
pub fn utterances(starts: &Vec<i64>, texts: &Vec<String>) -> (r: Vec<Utterance>)
    requires
        starts.len() == texts.len(),
    ensures
        utterance_views(r@) == spoken(starts@, texts@, texts@.len() as int),
{
    let mut out: Vec<Utterance> = Vec::new();
    let mut i: usize = 0;
    while i < texts.len()
        invariant
            i <= texts.len(),
            texts.len() == starts.len(),
            utterance_views(out@) == spoken(starts@, texts@, i as int),
        decreases texts.len() - i,
    {
        let text = texts[i].clone();
        if text.as_str().unicode_len() > 0 {
            let ghost before = utterance_views(out@);
            out.push(Utterance { start_sample: starts[i], chunk: i, text });
            assert(utterance_views(out@) =~= before.push(
                (starts@[i as int], i as int, texts@[i as int]@),
            ));
        }
        i = i + 1;
    }
    out
}

/// How many speakers the diarizer found: one more than the greatest speaker
/// index, or one when no chunk was labelled.
pub open spec fn speaker_count_of(speaker_of: Seq<usize>) -> int
    decreases speaker_of.len(),
{
    if speaker_of.len() == 0 {
        1
    } else {
        let rest = speaker_count_of(speaker_of.drop_last());
        if speaker_of.last() + 1 > rest {
            speaker_of.last() + 1
        } else {
            rest
        }
    }
}

/// Every labelled chunk's speaker is below the speaker count, which is at
/// least one.
pub proof fn lemma_speaker_count(speaker_of: Seq<usize>)
    ensures
        speaker_count_of(speaker_of) >= 1,
        forall|i: int| 0 <= i < speaker_of.len() ==> speaker_of[i] < speaker_count_of(speaker_of),
    decreases speaker_of.len(),
{
    if speaker_of.len() > 0 {
        lemma_speaker_count(speaker_of.drop_last());
        assert forall|i: int| 0 <= i < speaker_of.len() implies speaker_of[i] < speaker_count_of(
            speaker_of,
        ) by {
            if i < speaker_of.len() - 1 {
                assert(speaker_of[i] == speaker_of.drop_last()[i]);
            }
        }
    }
}

/// The number of speakers (see [`speaker_count_of`]).
pub fn speaker_count(speaker_of: &Vec<usize>) -> (r: usize)
    requires
        forall|i: int| 0 <= i < speaker_of.len() ==> speaker_of[i] < usize::MAX,
    ensures
        r == speaker_count_of(speaker_of@),
{
    let mut count: usize = 1;
    let mut i: usize = 0;
    while i < speaker_of.len()
        invariant
            i <= speaker_of.len(),
            forall|j: int| 0 <= j < speaker_of.len() ==> speaker_of[j] < usize::MAX,
            count == speaker_count_of(speaker_of@.take(i as int)),
        decreases speaker_of.len() - i,
    {
        assert(speaker_of@.take(i + 1).drop_last() =~= speaker_of@.take(i as int));
        if speaker_of[i] + 1 > count {
            count = speaker_of[i] + 1;
        }
        i = i + 1;
    }
    assert(speaker_of@.take(speaker_of.len() as int) =~= speaker_of@);
    count
}

/// The label of the `k`-th speaker, counting from one: `speaker_k`.
pub open spec fn speaker_name(k: nat) -> Seq<char> {
    "speaker_"@ + decimal(k)
}

/// The label of speaker `k` (counting from one).
pub fn speaker_label(k: u64) -> (r: String)
    ensures
        r@ == speaker_name(k as nat),
{
    let mut r = owned("speaker_");
    push_decimal(&mut r, k);
    r
}

/// The note's speaker list: `speaker_1` to `speaker_<count>`.
pub fn speaker_names(count: usize) -> (r: Vec<String>)
    ensures
        r@.len() == count,
        forall|i: int| 0 <= i < count ==> #[trigger] r@[i]@ == speaker_name((i + 1) as nat),
{
    let mut r: Vec<String> = Vec::new();
    let mut k: usize = 0;
    while k < count
        invariant
            k <= count,
            r@.len() == k,
            forall|i: int| 0 <= i < k ==> #[trigger] r@[i]@ == speaker_name((i + 1) as nat),
        decreases count - k,
    {
        r.push(speaker_label(k as u64 + 1));
        k = k + 1;
    }
    r
}

/// The speaker of a chunk (counting from one); chunks the diarizer left
/// unlabelled go to the first speaker.
pub open spec fn speaker_of_chunk(speaker_of: Seq<usize>, chunk: int) -> nat {
    if 0 <= chunk < speaker_of.len() {
        (speaker_of[chunk] + 1) as nat
    } else {
        1
    }
}

/// Seconds from the session's start, from a start in samples at 16 kHz:
/// rounded down, none for a negative start, at most `u32::MAX`.
pub open spec fn seconds_at(start_sample: int) -> int {
    if start_sample <= 0 {
        0
    } else if start_sample / (VAD_SAMPLE_RATE as int) > u32::MAX {
        u32::MAX as int
    } else {
        start_sample / (VAD_SAMPLE_RATE as int)
    }
}

/// Seconds from the session's start (see [`seconds_at`]).
pub fn seconds_from_start(start_sample: i64) -> (r: u32)
    ensures
        r == seconds_at(start_sample as int),
{
    if start_sample <= 0 {
        0
    } else {
        let s = start_sample / VAD_SAMPLE_RATE as i64;
        if s > u32::MAX as i64 {
            u32::MAX
        } else {
            s as u32
        }
    }
}

/// The transcript line of an utterance.
pub open spec fn line_of(speaker_of: Seq<usize>, u: (i64, int, Seq<char>)) -> (
    Seq<char>,
    int,
    Seq<char>,
) {
    (speaker_name(speaker_of_chunk(speaker_of, u.1)), seconds_at(u.0 as int), u.2)
}

/// The transcript lines of utterances.
pub open spec fn lines_for(speaker_of: Seq<usize>, us: Seq<(i64, int, Seq<char>)>) -> Seq<
    (Seq<char>, int, Seq<char>),
> {
    us.map_values(|u: (i64, int, Seq<char>)| line_of(speaker_of, u))
}

/// The contents of transcript lines.
pub open spec fn line_views(ls: Seq<TranscriptLine>) -> Seq<(Seq<char>, int, Seq<char>)> {
    ls.map_values(|l: TranscriptLine| (l.speaker@, l.at_secs as int, l.text@))
}

/// The transcript: each utterance with its speaker's label and its time.
pub fn transcript(us: &Vec<Utterance>, speaker_of: &Vec<usize>) -> (r: Vec<TranscriptLine>)
    requires
        forall|i: int| 0 <= i < speaker_of.len() ==> speaker_of[i] < usize::MAX,
    ensures
        line_views(r@) == lines_for(speaker_of@, utterance_views(us@)),
{
    let mut r: Vec<TranscriptLine> = Vec::new();
    let mut i: usize = 0;
    while i < us.len()
        invariant
            i <= us.len(),
            forall|j: int| 0 <= j < speaker_of.len() ==> speaker_of[j] < usize::MAX,
            line_views(r@) == lines_for(speaker_of@, utterance_views(us@).take(i as int)),
        decreases us.len() - i,
    {
        let u = &us[i];
        let k: usize = if u.chunk < speaker_of.len() {
            speaker_of[u.chunk] + 1
        } else {
            1
        };
        let line = TranscriptLine {
            speaker: speaker_label(k as u64),
            at_secs: seconds_from_start(u.start_sample),
            text: u.text.clone(),
        };
        assert((line.speaker@, line.at_secs as int, line.text@) == line_of(
            speaker_of@,
            utterance_views(us@)[i as int],
        ));
        let ghost before = line_views(r@);
        let ghost item = (line.speaker@, line.at_secs as int, line.text@);
        r.push(line);
        i = i + 1;
        assert(line_views(r@) =~= before.push(item));
        assert(lines_for(speaker_of@, utterance_views(us@).take(i as int)) =~= lines_for(
            speaker_of@,
            utterance_views(us@).take(i - 1),
        ).push(item));
    }
    assert(utterance_views(us@).take(us.len() as int) =~= utterance_views(us@));
    r
}

/// The transcript as the summarizer reads it: `speaker: text` per line.
pub open spec fn plain_lines(ls: Seq<TranscriptLine>) -> Seq<Seq<char>> {
    ls.map_values(|l: TranscriptLine| l.speaker@ + ": "@ + l.text@)
}

/// The transcript as the summarizer reads it: `speaker: text` lines joined
/// by newlines.
pub fn transcript_text(lines: &Vec<TranscriptLine>) -> (r: String)
    ensures
        r@ == joined(plain_lines(lines@), "\n"@),
{
    let mut parts: Vec<String> = Vec::new();
    let mut i: usize = 0;
    while i < lines.len()
        invariant
            i <= lines.len(),
            string_views(parts@) == plain_lines(lines@).take(i as int),
        decreases lines.len() - i,
    {
        let mut p = lines[i].speaker.clone();
        push_str(&mut p, ": ");
        push_str(&mut p, lines[i].text.as_str());
        assert(p@ == plain_lines(lines@)[i as int]);
        let ghost before = string_views(parts@);
        let ghost item = p@;
        parts.push(p);
        i = i + 1;
        assert(string_views(parts@) =~= before.push(item));
        assert(plain_lines(lines@).take(i as int) =~= plain_lines(lines@).take(i - 1).push(item));
    }
    assert(plain_lines(lines@).take(lines.len() as int) =~= plain_lines(lines@));
    crate::text::join_strings(&parts, "\n")
}

/// The summary, or a line saying why there is none.
pub fn summary_or_notice(summary: Result<String, String>) -> (r: String)
    ensures
        r@ == match summary {
            Ok(s) => s@,
            Err(e) => "*Summary unavailable ("@ + e@ + ").*"@,
        },
{
    match summary {
        Ok(s) => s,
        Err(e) => {
            let mut r = owned("*Summary unavailable (");
            push_str(&mut r, e.as_str());
            push_str(&mut r, ").*");
            r
        },
    }
}

/// Every transcript line names one of the note's speakers: for any
/// utterance, its speaker's label is among `speaker_1` to
/// `speaker_<count>`.
pub proof fn law_speakers_listed(speaker_of: Seq<usize>, u: (i64, int, Seq<char>))
    ensures
        exists|k: int|
            1 <= k <= speaker_count_of(speaker_of) && #[trigger] speaker_name(k as nat) == line_of(
                speaker_of,
                u,
            ).0,
{
    lemma_speaker_count(speaker_of);
    let k = speaker_of_chunk(speaker_of, u.1) as int;
    assert(speaker_name(k as nat) == line_of(speaker_of, u).0);
}

/// The note of a finished session.
pub fn meeting_note(
    cfg: &Config,
    started_at: Stamp,
    elapsed_secs: i64,
    speaker_of: &Vec<usize>,
    transcript: Vec<TranscriptLine>,
    summary: Result<String, String>,
) -> (r: MeetingNote)
    requires
        forall|i: int| 0 <= i < speaker_of.len() ==> speaker_of[i] < usize::MAX,
    ensures
        r.started_at@ == started_at@,
        r.source@ == match ghost_input(cfg) {
            Some(d) => d,
            None => "default mic"@,
        },
        r.speakers@.len() == speaker_count_of(speaker_of@),
        forall|i: int|
            0 <= i < r.speakers@.len() ==> #[trigger] r.speakers@[i]@ == speaker_name((i + 1) as nat),
        r.duration_min == minutes_of(elapsed_secs as int),
        r.summary@ == match summary {
            Ok(s) => s@,
            Err(e) => "*Summary unavailable ("@ + e@ + ").*"@,
        },
        r.transcript@ == transcript@,
{
    let count = speaker_count(speaker_of);
    MeetingNote {
        started_at,
        source: note_source(cfg),
        speakers: speaker_names(count),
        duration_min: duration_minutes(elapsed_secs),
        summary: summary_or_notice(summary),
        transcript,
    }
}

// ---------------------------------------------------------------------------
// The ghost worker.
// ---------------------------------------------------------------------------

/// Where the ghost worker stands.
#[derive(PartialEq, Eq, Structural, Clone, Copy, Debug)]
pub enum GhostPhase {
    /// Not capturing.
    Idle,
    /// A session is starting (model, input and spool folder).
    Starting,
    /// Capturing: speech is detected and spooled as it comes.
    Recording,
    /// The session is being turned into a note.
    Finishing,
    /// The command channel closed; the worker has stopped.
    Stopped,
}

/// What happened since the last step.
pub enum GhostEvent {
    Command(GhostCmd),
    /// Half a second passed without a command.
    Tick,
    /// The command channel closed.
    Disconnected,
    /// The session started, or failed to with this message.
    Started(Result<(), String>),
    /// The note was written at this path, or the session failed with this message.
    Finished(Result<String, String>),
}

/// Outside work for a step.
#[derive(PartialEq, Eq, Structural, Clone, Copy, Debug)]
pub enum GhostWork {
    /// Start a session.
    Start,
    /// Take the audio recorded so far through the detector and spool speech.
    Pump,
    /// Stop the session and write its note.
    Finish,
}

/// What a step asks for, in this order: announce a written note, report a
/// status, do the work.
pub struct GhostStep {
    pub note: Option<String>,
    pub status: Option<Status>,
    pub work: Option<GhostWork>,
}

/// An event of the ghost worker, with texts as character sequences.
pub enum GhostEventView {
    Command(GhostCmd),
    Tick,
    Disconnected,
    Started(Result<(), Seq<char>>),
    Finished(Result<Seq<char>, Seq<char>>),
}

impl View for GhostEvent {
    type V = GhostEventView;

    open spec fn view(&self) -> GhostEventView {
        match self {
            GhostEvent::Command(c) => GhostEventView::Command(*c),
            GhostEvent::Tick => GhostEventView::Tick,
            GhostEvent::Disconnected => GhostEventView::Disconnected,
            GhostEvent::Started(Ok(())) => GhostEventView::Started(Ok(())),
            GhostEvent::Started(Err(e)) => GhostEventView::Started(Err(e@)),
            GhostEvent::Finished(Ok(p)) => GhostEventView::Finished(Ok(p@)),
            GhostEvent::Finished(Err(e)) => GhostEventView::Finished(Err(e@)),
        }
    }
}

/// A step's requests, as views.
pub struct GhostStepView {
    pub note: Option<Seq<char>>,
    pub status: Option<(PillState, Option<Seq<char>>)>,
    pub work: Option<GhostWork>,
}

impl View for GhostStep {
    type V = GhostStepView;

    open spec fn view(&self) -> GhostStepView {
        GhostStepView {
            note: opt_view(self.note),
            status: match self.status {
                Some(s) => Some(s@),
                None => None,
            },
            work: self.work,
        }
    }
}

/// A step's requests, from its parts.
pub open spec fn ghost_step_of(
    note: Option<Seq<char>>,
    status: Option<(PillState, Option<Seq<char>>)>,
    work: Option<GhostWork>,
) -> GhostStepView {
    GhostStepView { note, status, work }
}

/// One step of the ghost worker: the toggle starts a session when none
/// runs and finishes it otherwise; while capturing, each tick pumps audio;
/// a closed channel stops the worker. Other events change nothing.
pub open spec fn ghost_next(p: GhostPhase, e: GhostEventView) -> (GhostPhase, GhostStepView) {
    match (p, e) {
        (GhostPhase::Idle, GhostEventView::Command(GhostCmd::Toggle)) => (
            GhostPhase::Starting,
            ghost_step_of(None, None, Some(GhostWork::Start)),
        ),
        (GhostPhase::Starting, GhostEventView::Started(Ok(()))) => (
            GhostPhase::Recording,
            ghost_step_of(None, Some((PillState::GhostRecording, None)), None),
        ),
        (GhostPhase::Starting, GhostEventView::Started(Err(msg))) => (
            GhostPhase::Idle,
            ghost_step_of(None, Some((PillState::Error, Some("ghost: "@ + msg))), None),
        ),
        (GhostPhase::Recording, GhostEventView::Command(GhostCmd::Toggle)) => (
            GhostPhase::Finishing,
            ghost_step_of(None, Some((PillState::GhostProcessing, None)), Some(GhostWork::Finish)),
        ),
        (GhostPhase::Recording, GhostEventView::Tick) => (
            GhostPhase::Recording,
            ghost_step_of(None, None, Some(GhostWork::Pump)),
        ),
        (GhostPhase::Finishing, GhostEventView::Finished(Ok(path))) => (
            GhostPhase::Idle,
            ghost_step_of(Some(path), Some((PillState::Idle, Some("note: "@ + path))), None),
        ),
        (GhostPhase::Finishing, GhostEventView::Finished(Err(msg))) => (
            GhostPhase::Idle,
            ghost_step_of(None, Some((PillState::Error, Some("ghost: "@ + msg))), None),
        ),
        (GhostPhase::Idle, GhostEventView::Disconnected) => (
            GhostPhase::Stopped,
            ghost_step_of(None, None, None),
        ),
        (GhostPhase::Recording, GhostEventView::Disconnected) => (
            GhostPhase::Stopped,
            ghost_step_of(None, None, None),
        ),
        _ => (p, ghost_step_of(None, None, None)),
    }
}

fn prefixed(prefix: &str, rest: &str) -> (s: String)
    ensures
        s@ == prefix@ + rest@,
{
    let mut s = owned(prefix);
    push_str(&mut s, rest);
    s
}

fn ghost_step(note: Option<String>, status: Option<Status>, work: Option<GhostWork>) -> (r: GhostStep)
    ensures
        r.note == note,
        r.status == status,
        r.work == work,
{
    GhostStep { note, status, work }
}

impl GhostPhase {
    /// Whether the worker has stopped (its loop ends).
    pub fn is_stopped(&self) -> (r: bool)
        ensures
            r == (*self == GhostPhase::Stopped),
    {
        match self {
            GhostPhase::Stopped => true,
            _ => false,
        }
    }

    /// One step of the ghost worker (see [`ghost_next`]).
    pub fn step(self, event: GhostEvent) -> (r: (GhostPhase, GhostStep))
        ensures
            (r.0, r.1@) == ghost_next(self, event@),
    {
        match (self, event) {
            (GhostPhase::Idle, GhostEvent::Command(GhostCmd::Toggle)) => (
                GhostPhase::Starting,
                ghost_step(None, None, Some(GhostWork::Start)),
            ),
            (GhostPhase::Starting, GhostEvent::Started(Ok(()))) => (
                GhostPhase::Recording,
                ghost_step(None, Some(Status { state: PillState::GhostRecording, detail: None }), None),
            ),
            (GhostPhase::Starting, GhostEvent::Started(Err(msg))) => (
                GhostPhase::Idle,
                ghost_step(
                    None,
                    Some(Status { state: PillState::Error, detail: Some(prefixed("ghost: ", msg.as_str())) }),
                    None,
                ),
            ),
            (GhostPhase::Recording, GhostEvent::Command(GhostCmd::Toggle)) => (
                GhostPhase::Finishing,
                ghost_step(
                    None,
                    Some(Status { state: PillState::GhostProcessing, detail: None }),
                    Some(GhostWork::Finish),
                ),
            ),
            (GhostPhase::Recording, GhostEvent::Tick) => (
                GhostPhase::Recording,
                ghost_step(None, None, Some(GhostWork::Pump)),
            ),
            (GhostPhase::Finishing, GhostEvent::Finished(Ok(path))) => {
                let detail = prefixed("note: ", path.as_str());
                (
                    GhostPhase::Idle,
                    ghost_step(
                        Some(path),
                        Some(Status { state: PillState::Idle, detail: Some(detail) }),
                        None,
                    ),
                )
            },
            (GhostPhase::Finishing, GhostEvent::Finished(Err(msg))) => (
                GhostPhase::Idle,
                ghost_step(
                    None,
                    Some(Status { state: PillState::Error, detail: Some(prefixed("ghost: ", msg.as_str())) }),
                    None,
                ),
            ),
            (GhostPhase::Idle, GhostEvent::Disconnected) => (
                GhostPhase::Stopped,
                ghost_step(None, None, None),
            ),
            (GhostPhase::Recording, GhostEvent::Disconnected) => (
                GhostPhase::Stopped,
                ghost_step(None, None, None),
            ),
            (p, _) => (p, ghost_step(None, None, None)),
        }
    }
}

/// The toggle alternates: from idle, a toggle starts a session (recording
/// once it has started), and the next toggle finishes it into a note, after
/// which the worker is idle again.
pub proof fn law_toggle_alternates(path: Seq<char>)
    ensures
        ({
            let (p1, s1) = ghost_next(GhostPhase::Idle, GhostEventView::Command(GhostCmd::Toggle));
            let (p2, s2) = ghost_next(p1, GhostEventView::Started(Ok(())));
            let (p3, s3) = ghost_next(p2, GhostEventView::Command(GhostCmd::Toggle));
            let (p4, s4) = ghost_next(p3, GhostEventView::Finished(Ok(path)));
            &&& s1.work == Some(GhostWork::Start)
            &&& p2 == GhostPhase::Recording
            &&& s3.work == Some(GhostWork::Finish)
            &&& p4 == GhostPhase::Idle
            &&& s4.note == Some(path)
        }),
{
}

} // verus!
