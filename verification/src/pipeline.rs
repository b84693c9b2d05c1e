//! The dictation pipeline's decisions: which recordings are worth
//! transcribing, when a transcript is the "scratch that" command, how the
//! text already typed at the cursor is morphed into a new text, and where
//! the status pill is shown.
//!
//! The worker that owns the speech model, the LLM client and the keyboard
//! runs a loop around [`Dictation::step`]: it performs the step's work and
//! hands the outcome back as the next event.
use vstd::prelude::*;

use crate::text::{
    all_white, char_is_alphanumeric, chars_equal, chars_of, is_alphanumeric,
    law_trimmed_is_text_between_white, lowercase, opt_view, owned, push_range, push_str,
    str_to_lowercase, trim_bounds, trimmed,
};

verus! {

// ---------------------------------------------------------------------------
// Status shown to the user.
// ---------------------------------------------------------------------------

/// What the app is doing, as the status pill and the settings window show it.
#[derive(PartialEq, Eq, Structural, Clone, Copy, Debug)]
pub enum PillState {
    Starting,
    LoadingModel,
    Idle,
    Recording,
    Transcribing,
    Cleaning,
    Injecting,
    Error,
    GhostRecording,
    GhostProcessing,
}

impl PillState {
    /// The name under which the state is reported to the user interface.
    pub open spec fn spec_name(self) -> Seq<char> {
        match self {
            PillState::Starting => "starting"@,
            PillState::LoadingModel => "loading-model"@,
            PillState::Idle => "idle"@,
            PillState::Recording => "recording"@,
            PillState::Transcribing => "transcribing"@,
            PillState::Cleaning => "cleaning"@,
            PillState::Injecting => "injecting"@,
            PillState::Error => "error"@,
            PillState::GhostRecording => "ghost-recording"@,
            PillState::GhostProcessing => "ghost-processing"@,
        }
    }

    /// The name under which the state is reported to the user interface.
    pub fn name(&self) -> (r: &'static str)
        ensures
            r@ == self.spec_name(),
    {
        match self {
            PillState::Starting => "starting",
            PillState::LoadingModel => "loading-model",
            PillState::Idle => "idle",
            PillState::Recording => "recording",
            PillState::Transcribing => "transcribing",
            PillState::Cleaning => "cleaning",
            PillState::Injecting => "injecting",
            PillState::Error => "error",
            PillState::GhostRecording => "ghost-recording",
            PillState::GhostProcessing => "ghost-processing",
        }
    }
}

/// A status report: the state and an optional detail line.
pub struct Status {
    pub state: PillState,
    pub detail: Option<String>,
}

impl View for Status {
    type V = (PillState, Option<Seq<char>>);

    open spec fn view(&self) -> (PillState, Option<Seq<char>>) {
        (self.state, opt_view(self.detail))
    }
}

/// The last status reported, or "starting" with no detail when nothing has
/// been reported yet (a window that loads late asks for it).
pub fn last_status(last: Option<Status>) -> (r: Status)
    ensures
        r@ == match last {
            Some(s) => s@,
            None => (PillState::Starting, None::<Seq<char>>),
        },
{
    match last {
        Some(s) => s,
        None => Status { state: PillState::Starting, detail: None },
    }
}

// ---------------------------------------------------------------------------
// Where the status pill goes.
// ---------------------------------------------------------------------------

/// A rectangle in physical pixels.
#[derive(Clone, Copy)]
pub struct Rect {
    pub x: i32,
    pub y: i32,
    pub width: u32,
    pub height: u32,
}

/// A display: its bounds, its work area (without menu bar and dock) and the
/// pill's bottom margin on it, in physical pixels.
#[derive(Clone, Copy)]
pub struct Monitor {
    pub bounds: Rect,
    pub work_area: Rect,
    pub margin: i32,
}

/// A point in physical pixels.
#[derive(PartialEq, Eq, Structural, Clone, Copy, Debug)]
pub struct Position {
    pub x: i64,
    pub y: i64,
}

/// What to do with the pill window.
#[derive(PartialEq, Eq, Structural, Clone, Copy, Debug)]
pub enum PillAction {
    /// Hide it.
    Hide,
    /// Show it, first moving it to `position` when one could be computed.
    Show { position: Option<Position> },
}

/// Whether the monitor holds the cursor (whose coordinates are taken to the
/// pixel, that is rounded down).
pub open spec fn holds_cursor(m: Monitor, cursor: (i64, i64)) -> bool {
    &&& cursor.0 >= m.bounds.x
    &&& cursor.0 < m.bounds.x + m.bounds.width
    &&& cursor.1 >= m.bounds.y
    &&& cursor.1 < m.bounds.y + m.bounds.height
}

/// The index of the first monitor at or after `i` that holds the cursor.
pub open spec fn first_holding(ms: Seq<Monitor>, cursor: (i64, i64), i: int) -> Option<int>
    decreases ms.len() - i,
{
    if i < 0 || i >= ms.len() {
        None
    } else if holds_cursor(ms[i], cursor) {
        Some(i)
    } else {
        first_holding(ms, cursor, i + 1)
    }
}

/// The monitor the pill goes on: the first one holding the cursor, else the
/// first one.
pub open spec fn chosen_monitor(ms: Seq<Monitor>, cursor: (i64, i64)) -> Option<int> {
    match first_holding(ms, cursor, 0) {
        Some(i) => Some(i),
        None => if ms.len() > 0 {
            Some(0)
        } else {
            None
        },
    }
}

/// Bottom-centre of the work area, `margin` above its bottom edge.
pub open spec fn pill_position(m: Monitor, size: (u32, u32)) -> (int, int) {
    let free = if m.work_area.width >= size.0 {
        m.work_area.width - size.0
    } else {
        0
    };
    (
        m.work_area.x + free / 2,
        m.work_area.y + m.work_area.height - size.1 - m.margin,
    )
}

/// Where the pill goes for a status: hidden when idle, otherwise shown,
/// bottom-centre on the monitor under the cursor when the cursor, the pill's
/// size and the monitors are all known.
pub open spec fn pill_action(
    state: PillState,
    cursor: Option<(i64, i64)>,
    size: Option<(u32, u32)>,
    monitors: Option<Seq<Monitor>>,
) -> PillAction {
    if state == PillState::Idle {
        PillAction::Hide
    } else {
        match (cursor, size, monitors) {
            (Some(c), Some(sz), Some(ms)) => match chosen_monitor(ms, c) {
                Some(i) => {
                    let p = pill_position(ms[i], sz);
                    PillAction::Show { position: Some(Position { x: p.0 as i64, y: p.1 as i64 }) }
                },
                None => PillAction::Show { position: None },
            },
            _ => PillAction::Show { position: None },
        }
    }
}

/// Decides where the status pill goes when the status becomes `state`.
pub fn place_pill(
    state: PillState,
    cursor: Option<(i64, i64)>,
    size: Option<(u32, u32)>,
    monitors: Option<Vec<Monitor>>,
) -> (r: PillAction)
    ensures
        r == pill_action(
            state,
            cursor,
            size,
            match monitors {
                Some(v) => Some(v@),
                None => None,
            },
        ),
{
    if state == PillState::Idle {
        return PillAction::Hide;
    }
    match (cursor, size, monitors) {
        (Some(c), Some(sz), Some(ms)) => {
            let mut i: usize = 0;
            let mut found: Option<usize> = None;
            while i < ms.len() && found.is_none()
                invariant
                    i <= ms.len(),
                    found is None ==> first_holding(ms@, c, 0) == first_holding(ms@, c, i as int),
                    found matches Some(k) ==> k < ms.len() && first_holding(ms@, c, 0) == Some(
                        k as int,
                    ),
                decreases ms.len() - i + if found is None { 1int } else { 0int },
            {
                let m = ms[i];
                let x = c.0;
                let y = c.1;
                let inside = x >= m.bounds.x as i64 && x < m.bounds.x as i64 + m.bounds.width as i64
                    && y >= m.bounds.y as i64 && y < m.bounds.y as i64 + m.bounds.height as i64;
                if inside {
                    found = Some(i);
                } else {
                    i = i + 1;
                }
            }
            let idx = match found {
                Some(k) => k,
                None => {
                    if ms.len() == 0 {
                        return PillAction::Show { position: None };
                    }
                    0
                },
            };
            let m = ms[idx];
            let free: u32 = if m.work_area.width >= sz.0 {
                m.work_area.width - sz.0
            } else {
                0
            };
            let px: i64 = m.work_area.x as i64 + (free / 2) as i64;
            let py: i64 = m.work_area.y as i64 + m.work_area.height as i64 - sz.1 as i64
                - m.margin as i64;
            PillAction::Show { position: Some(Position { x: px, y: py }) }
        },
        _ => PillAction::Show { position: None },
    }
}

/// The pill is visible whenever something is happening, and hidden when
/// idle; when the cursor, the pill's size and the monitors are known and a
/// monitor holds the cursor, the pill is parked bottom-centre on that
/// monitor.
pub proof fn law_pill_follows_cursor(
    state: PillState,
    cursor: (i64, i64),
    size: (u32, u32),
    ms: Seq<Monitor>,
    i: int,
)
    requires
        0 <= i < ms.len(),
        holds_cursor(ms[i], cursor),
        forall|j: int| 0 <= j < i ==> !holds_cursor(#[trigger] ms[j], cursor),
    ensures
        state == PillState::Idle ==> pill_action(state, Some(cursor), Some(size), Some(ms))
            == PillAction::Hide,
        state != PillState::Idle ==> pill_action(state, Some(cursor), Some(size), Some(ms))
            == (PillAction::Show {
            position: Some(
                Position {
                    x: pill_position(ms[i], size).0 as i64,
                    y: pill_position(ms[i], size).1 as i64,
                },
            ),
        }),
{
    lemma_first_holding(ms, cursor, 0, i);
}

proof fn lemma_first_holding(ms: Seq<Monitor>, cursor: (i64, i64), from: int, i: int)
    requires
        0 <= from <= i < ms.len(),
        holds_cursor(ms[i], cursor),
        forall|j: int| 0 <= j < i ==> !holds_cursor(#[trigger] ms[j], cursor),
    ensures
        first_holding(ms, cursor, from) == Some(i),
    decreases i - from,
{
    if from < i {
        lemma_first_holding(ms, cursor, from + 1, i);
    }
}

// ---------------------------------------------------------------------------
// Morphing the text at the cursor.
// ---------------------------------------------------------------------------

/// The length of the longest common prefix of `a` and `b`.
pub open spec fn common_prefix_len(a: Seq<char>, b: Seq<char>) -> nat
    decreases a.len(),
{
    if a.len() == 0 || b.len() == 0 || a[0] != b[0] {
        0
    } else {
        1 + common_prefix_len(a.drop_first(), b.drop_first())
    }
}

/// The keystrokes that turn `current` into `target`: erase what follows
/// their common prefix, then type the rest of `target`.
pub open spec fn edit_between(current: Seq<char>, target: Seq<char>) -> (nat, Seq<char>) {
    let k = common_prefix_len(current, target);
    ((current.len() - k) as nat, target.skip(k as int))
}

/// The common prefix is a prefix of both, and no longer one exists.
pub proof fn lemma_common_prefix(a: Seq<char>, b: Seq<char>)
    ensures
        common_prefix_len(a, b) <= a.len(),
        common_prefix_len(a, b) <= b.len(),
        a.take(common_prefix_len(a, b) as int) == b.take(common_prefix_len(a, b) as int),
        common_prefix_len(a, b) < a.len() && common_prefix_len(a, b) < b.len() ==> a[common_prefix_len(
            a,
            b,
        ) as int] != b[common_prefix_len(a, b) as int],
    decreases a.len(),
{
    if !(a.len() == 0 || b.len() == 0 || a[0] != b[0]) {
        lemma_common_prefix(a.drop_first(), b.drop_first());
        let k = common_prefix_len(a.drop_first(), b.drop_first());
        assert(a.take(k + 1 as int) =~= seq![a[0]] + a.drop_first().take(k as int));
        assert(b.take(k + 1 as int) =~= seq![b[0]] + b.drop_first().take(k as int));
    } else {
        assert(a.take(0) =~= b.take(0));
    }
}

/// Applying the keystrokes of [`edit_between`] to `current` yields `target`.
pub proof fn lemma_edit_reaches_target(current: Seq<char>, target: Seq<char>)
    ensures
        ({
            let (backspaces, addition) = edit_between(current, target);
            &&& backspaces <= current.len()
            &&& current.take(current.len() - backspaces) + addition == target
        }),
{
    lemma_common_prefix(current, target);
    let k = common_prefix_len(current, target);
    assert(current.take(k as int) + target.skip(k as int) =~= target);
}

proof fn lemma_common_prefix_step(a: Seq<char>, b: Seq<char>, i: int)
    requires
        0 <= i < a.len(),
        i < b.len(),
        a[i] == b[i],
    ensures
        common_prefix_len(a.skip(i), b.skip(i)) == 1 + common_prefix_len(
            a.skip(i + 1),
            b.skip(i + 1),
        ),
{
    assert(a.skip(i).drop_first() =~= a.skip(i + 1));
    assert(b.skip(i).drop_first() =~= b.skip(i + 1));
}

/// The keystrokes that turn `current` into `target`: how many characters to
/// erase and what to type then. Both are nothing when the texts are equal.
pub fn plan_edit(current: &str, target: &str) -> (r: (usize, String))
    ensures
        r.0 == edit_between(current@, target@).0,
        r.1@ == edit_between(current@, target@).1,
{
    let a = chars_of(current);
    let b = chars_of(target);
    let mut i: usize = 0;
    assert(a@.skip(0) =~= a@);
    assert(b@.skip(0) =~= b@);
    while i < a.len() && i < b.len() && a[i] == b[i]
        invariant
            i <= a.len(),
            i <= b.len(),
            common_prefix_len(a@, b@) == i + common_prefix_len(a@.skip(i as int), b@.skip(i as int)),
        decreases a.len() - i,
    {
        proof {
            lemma_common_prefix_step(a@, b@, i as int);
        }
        i = i + 1;
    }
    assert(common_prefix_len(a@.skip(i as int), b@.skip(i as int)) == 0);
    let mut addition = String::new();
    push_range(&mut addition, &b, i, b.len());
    assert(b@.subrange(i as int, b@.len() as int) =~= b@.skip(i as int));
    (a.len() - i, addition)
}

// ---------------------------------------------------------------------------
// Recordings and the "scratch that" command.
// ---------------------------------------------------------------------------

/// A recording handed to the pipeline, as far as the decisions read it: how
/// many mono samples it holds and at what rate. The samples travel beside it.
#[derive(PartialEq, Eq, Structural, Clone, Copy, Debug)]
pub enum PipeJob {
    /// Snapshot of an in-progress recording, for streaming partial transcripts.
    Partial { sample_count: u64, sample_rate: u32 },
    /// The finished recording: transcribe, clean up, inject.
    Final { sample_count: u64, sample_rate: u32 },
}

impl PipeJob {
    /// Whether this is a snapshot: partials that pile up are replaced by the
    /// newest job waiting, until a final one comes.
    pub fn is_partial(&self) -> (r: bool)
        ensures
            r == (*self is Partial),
    {
        match self {
            PipeJob::Partial { .. } => true,
            PipeJob::Final { .. } => false,
        }
    }
}

/// The index of the first finished recording in `jobs` at or after `i`.
pub open spec fn first_final(jobs: Seq<PipeJob>, i: int) -> Option<int>
    decreases jobs.len() - i,
{
    if i < 0 || i >= jobs.len() {
        None
    } else if jobs[i] is Final {
        Some(i)
    } else {
        first_final(jobs, i + 1)
    }
}

/// Which of the waiting recordings to handle next: snapshots that piled up
/// while a decode ran are skipped in favour of the newest one, but never a
/// finished recording: the first finished one, if any waits, else the last
/// snapshot.
pub open spec fn job_to_take(jobs: Seq<PipeJob>) -> int {
    match first_final(jobs, 0) {
        Some(i) => i,
        None => jobs.len() - 1,
    }
}

/// Which waiting recording to handle next (see [`job_to_take`]); those
/// before it are dropped, those after it wait.
pub fn pick_job(jobs: &Vec<PipeJob>) -> (r: usize)
    requires
        jobs.len() > 0,
    ensures
        r == job_to_take(jobs@),
        r < jobs.len(),
{
    let mut i: usize = 0;
    while i < jobs.len()
        invariant
            i <= jobs.len(),
            first_final(jobs@, 0) == first_final(jobs@, i as int),
        decreases jobs.len() - i,
    {
        if !jobs[i].is_partial() {
            return i;
        }
        i = i + 1;
    }
    jobs.len() - 1
}

/// Skipping piled-up snapshots never skips a finished recording: every job
/// dropped before the one taken is a snapshot.
pub proof fn law_never_skip_final(jobs: Seq<PipeJob>)
    requires
        jobs.len() > 0,
    ensures
        0 <= job_to_take(jobs) < jobs.len(),
        forall|i: int| 0 <= i < job_to_take(jobs) ==> #[trigger] jobs[i] is Partial,
{
    lemma_first_final(jobs, 0);
}

proof fn lemma_first_final(jobs: Seq<PipeJob>, i: int)
    requires
        0 <= i <= jobs.len(),
    ensures
        match first_final(jobs, i) {
            Some(k) => i <= k < jobs.len() && jobs[k] is Final && forall|j: int|
                i <= j < k ==> #[trigger] jobs[j] is Partial,
            None => forall|j: int| i <= j < jobs.len() ==> #[trigger] jobs[j] is Partial,
        },
    decreases jobs.len() - i,
{
    if i < jobs.len() {
        lemma_first_final(jobs, i + 1);
    }
}

/// A snapshot shorter than half a second is not worth transcribing (twice
/// the sample count below the rate).
pub open spec fn partial_too_short(sample_count: u64, sample_rate: u32) -> bool {
    2 * sample_count < sample_rate
}

/// A finished recording shorter than a fifth of a second is an accidental tap
/// (five times the sample count below the rate).
pub open spec fn final_too_short(sample_count: u64, sample_rate: u32) -> bool {
    5 * sample_count < sample_rate
}

/// The words "scratch that", as a recognised command.
pub open spec fn scratch_words() -> Seq<char> {
    "scratch that"@
}

/// A transcript lowercased, with everything but letters, digits and spaces
/// removed, and trimmed.
pub open spec fn normalized_command(raw: Seq<char>) -> Seq<char> {
    trimmed(lowercase(raw).filter(|c: char| is_alphanumeric(c) || c == ' '))
}

/// Whether a transcript is the "scratch that" command: it is not empty, and
/// normalized it reads "scratch that".
pub open spec fn is_scratch(raw: Seq<char>) -> bool {
    raw.len() > 0 && normalized_command(raw) == scratch_words()
}

/// A transcript is the "scratch that" command exactly when, lowercased and
/// kept to letters, digits and spaces, it is the words "scratch that" with
/// nothing but white space around them: any other word before or after them
/// makes it an ordinary dictation.
pub proof fn law_scratch_is_the_whole_command(raw: Seq<char>)
    ensures
        is_scratch(raw) <==> raw.len() > 0 && exists|pre: Seq<char>, post: Seq<char>|
            #![trigger all_white(pre), all_white(post)]
            all_white(pre) && all_white(post) && lowercase(raw).filter(
                |c: char| is_alphanumeric(c) || c == ' ',
            ) == pre + "scratch that"@ + post,
{
    reveal_strlit("scratch that");
    let kept = lowercase(raw).filter(|c: char| is_alphanumeric(c) || c == ' ');
    assert(normalized_command(raw) == trimmed(kept));
    law_trimmed_is_text_between_white(kept, scratch_words());
}

/// Whether `raw` is the "scratch that" command: it is not empty and,
/// lowercased, kept to letters, digits and spaces, and trimmed, it reads
/// "scratch that".
pub fn is_scratch_command(raw: &str) -> (r: bool)
    ensures
        r == is_scratch(raw@),
{
    if raw.unicode_len() == 0 {
        return false;
    }
    let lower = str_to_lowercase(raw);
    let chars = chars_of(lower.as_str());
    let mut kept: Vec<char> = Vec::new();
    let ghost pred = |c: char| is_alphanumeric(c) || c == ' ';
    let mut i: usize = 0;
    while i < chars.len()
        invariant
            i <= chars.len(),
            chars@ == lowercase(raw@),
            pred == (|c: char| is_alphanumeric(c) || c == ' '),
            kept@ == chars@.take(i as int).filter(pred),
        decreases chars.len() - i,
    {
        let c = chars[i];
        proof {
            reveal(Seq::filter);
            assert(chars@.take(i + 1).drop_last() =~= chars@.take(i as int));
        }
        if char_is_alphanumeric(c) || c == ' ' {
            kept.push(c);
        }
        i = i + 1;
        proof {
            reveal(Seq::filter);
        }
    }
    assert(chars@.take(chars.len() as int) =~= chars@);
    let (lo, hi) = trim_bounds(&kept);
    let mut normalized: Vec<char> = Vec::new();
    let mut k = lo;
    while k < hi
        invariant
            lo <= k <= hi,
            hi <= kept.len(),
            normalized@ == kept@.subrange(lo as int, k as int),
        decreases hi - k,
    {
        normalized.push(kept[k]);
        k = k + 1;
        assert(kept@.subrange(lo as int, k as int) =~= kept@.subrange(lo as int, k - 1).push(
            kept@[k - 1],
        ));
    }
    let expected = chars_of("scratch that");
    chars_equal(&normalized, &expected)
}

// ---------------------------------------------------------------------------
// The dictation machine.
// ---------------------------------------------------------------------------

/// Where the dictation worker stands.
pub enum Phase {
    /// The speech model is loading.
    Loading,
    /// The speech model failed to load; dictation is off.
    Stopped,
    /// Waiting for a recording.
    Ready,
    /// A snapshot is being transcribed.
    TranscribingPartial,
    /// The cursor text is being morphed into a partial transcript.
    TypingPartial { target: String },
    /// A finished recording is being transcribed.
    TranscribingFinal,
    /// Live-typed text is being erased because nothing was heard.
    ClearingSilence,
    /// Live-typed text ("scratch that" itself) is being erased before scratching.
    ClearingScratch,
    /// The previous dictation is being erased.
    Scratching,
    /// The transcript is being cleaned up by the LLM.
    Cleaning { raw: String },
    /// The cleaned text is being put at the cursor.
    Injecting { raw: String, cleaned: String },
}

/// A piece of outside work the worker performs for a step; its outcome is
/// the next event.
pub enum Work {
    /// Transcribe the samples of the recording just handed in.
    Transcribe,
    /// Press backspace `backspaces` times, then type `addition` (nothing to
    /// do, and at once done, when both are empty).
    Edit { backspaces: usize, addition: String },
    /// Put `0` at the cursor (clipboard paste, typing as fallback).
    Inject(String),
    /// Press backspace this many times.
    Delete(usize),
    /// Clean the transcript up with the LLM.
    Clean(String),
}

/// What happened since the last step.
pub enum Event {
    /// The speech model loaded, or failed to with this message.
    ModelLoaded(Result<(), String>),
    /// A recording came in.
    Job(PipeJob),
    /// The transcript of the recording (empty when nothing was heard).
    Transcript(String),
    /// The cleaned-up text.
    Cleaned(String),
    /// The outcome of an edit, injection or deletion.
    Done(Result<(), String>),
}

/// What a step asks of the worker, in this order: clear the partial caption,
/// show a partial caption, report the result, report a status, then do the
/// work.
pub struct Step {
    pub clear_partial: bool,
    pub partial: Option<String>,
    pub result: Option<(String, String)>,
    pub status: Option<Status>,
    pub work: Option<Work>,
}

/// The dictation worker's state.
pub struct Dictation {
    /// Whether partial transcripts are typed at the cursor (otherwise they
    /// are only shown in the pill). The settings window may flip it.
    pub live_typing: bool,
    /// How many characters the last dictation put at the cursor, for
    /// "scratch that".
    pub last_injected: Option<usize>,
    /// What live typing has put at the cursor for the current utterance.
    pub live_typed: String,
    pub phase: Phase,
}

/// Where the dictation worker stands, with texts as character sequences.
pub enum PhaseView {
    Loading,
    Stopped,
    Ready,
    TranscribingPartial,
    TypingPartial { target: Seq<char> },
    TranscribingFinal,
    ClearingSilence,
    ClearingScratch,
    Scratching,
    Cleaning { raw: Seq<char> },
    Injecting { raw: Seq<char>, cleaned: Seq<char> },
}

/// A piece of outside work, with texts as character sequences.
pub enum WorkView {
    Transcribe,
    Edit { backspaces: nat, addition: Seq<char> },
    Inject(Seq<char>),
    Delete(nat),
    Clean(Seq<char>),
}

/// An event, with texts as character sequences.
pub enum EventView {
    ModelLoaded(Result<(), Seq<char>>),
    Job(PipeJob),
    Transcript(Seq<char>),
    Cleaned(Seq<char>),
    Done(Result<(), Seq<char>>),
}

/// What a step asks for, with texts as character sequences.
pub struct StepView {
    pub clear_partial: bool,
    pub partial: Option<Seq<char>>,
    pub result: Option<(Seq<char>, Seq<char>)>,
    pub status: Option<(PillState, Option<Seq<char>>)>,
    pub work: Option<WorkView>,
}

/// The dictation worker's state, with texts as character sequences.
pub struct DictationView {
    pub live_typing: bool,
    pub last_injected: Option<nat>,
    pub live_typed: Seq<char>,
    pub phase: PhaseView,
}

/// The contents of an outcome.
pub open spec fn result_view(r: Result<(), String>) -> Result<(), Seq<char>> {
    match r {
        Ok(()) => Ok(()),
        Err(e) => Err(e@),
    }
}

impl View for Phase {
    type V = PhaseView;

    open spec fn view(&self) -> PhaseView {
        match self {
            Phase::Loading => PhaseView::Loading,
            Phase::Stopped => PhaseView::Stopped,
            Phase::Ready => PhaseView::Ready,
            Phase::TranscribingPartial => PhaseView::TranscribingPartial,
            Phase::TypingPartial { target } => PhaseView::TypingPartial { target: target@ },
            Phase::TranscribingFinal => PhaseView::TranscribingFinal,
            Phase::ClearingSilence => PhaseView::ClearingSilence,
            Phase::ClearingScratch => PhaseView::ClearingScratch,
            Phase::Scratching => PhaseView::Scratching,
            Phase::Cleaning { raw } => PhaseView::Cleaning { raw: raw@ },
            Phase::Injecting { raw, cleaned } => PhaseView::Injecting {
                raw: raw@,
                cleaned: cleaned@,
            },
        }
    }
}

impl View for Work {
    type V = WorkView;

    open spec fn view(&self) -> WorkView {
        match self {
            Work::Transcribe => WorkView::Transcribe,
            Work::Edit { backspaces, addition } => WorkView::Edit {
                backspaces: *backspaces as nat,
                addition: addition@,
            },
            Work::Inject(t) => WorkView::Inject(t@),
            Work::Delete(n) => WorkView::Delete(*n as nat),
            Work::Clean(t) => WorkView::Clean(t@),
        }
    }
}

impl View for Event {
    type V = EventView;

    open spec fn view(&self) -> EventView {
        match self {
            Event::ModelLoaded(r) => EventView::ModelLoaded(result_view(*r)),
            Event::Job(j) => EventView::Job(*j),
            Event::Transcript(t) => EventView::Transcript(t@),
            Event::Cleaned(t) => EventView::Cleaned(t@),
            Event::Done(r) => EventView::Done(result_view(*r)),
        }
    }
}

impl View for Step {
    type V = StepView;

    open spec fn view(&self) -> StepView {
        StepView {
            clear_partial: self.clear_partial,
            partial: opt_view(self.partial),
            result: match self.result {
                Some((a, b)) => Some((a@, b@)),
                None => None,
            },
            status: match self.status {
                Some(s) => Some(s@),
                None => None,
            },
            work: match self.work {
                Some(w) => Some(w@),
                None => None,
            },
        }
    }
}

impl View for Dictation {
    type V = DictationView;

    open spec fn view(&self) -> DictationView {
        DictationView {
            live_typing: self.live_typing,
            last_injected: match self.last_injected {
                Some(n) => Some(n as nat),
                None => None,
            },
            live_typed: self.live_typed@,
            phase: self.phase@,
        }
    }
}

/// A step that asks nothing.
pub open spec fn quiet() -> StepView {
    StepView { clear_partial: false, partial: None, result: None, status: None, work: None }
}

/// A step that only reports a status.
pub open spec fn report(state: PillState, detail: Option<Seq<char>>) -> StepView {
    StepView { status: Some((state, detail)), ..quiet() }
}

/// The keystrokes that turn `current` into `target` (none at all when they
/// are equal).
pub open spec fn edit_work(current: Seq<char>, target: Seq<char>) -> WorkView {
    let (b, a) = edit_between(current, target);
    WorkView::Edit { backspaces: b, addition: a }
}

/// After live-typed text is gone for a "scratch that": erase the previous
/// dictation, if there is one.
pub open spec fn scratch_next(d: DictationView) -> (DictationView, StepView) {
    match d.last_injected {
        Some(n) => (
            DictationView { last_injected: None, phase: PhaseView::Scratching, ..d },
            StepView { work: Some(WorkView::Delete(n)), ..report(PillState::Injecting, None) },
        ),
        None => (
            DictationView { phase: PhaseView::Ready, ..d },
            report(PillState::Idle, Some("nothing to scratch"@)),
        ),
    }
}

/// After the cleaned text is at the cursor (or failed to get there).
pub open spec fn injected_next(
    d: DictationView,
    raw: Seq<char>,
    cleaned: Seq<char>,
    outcome: Result<(), Seq<char>>,
) -> (DictationView, StepView) {
    match outcome {
        Ok(()) => (
            DictationView {
                live_typed: Seq::empty(),
                last_injected: Some(cleaned.len()),
                phase: PhaseView::Ready,
                ..d
            },
            StepView { result: Some((raw, cleaned)), ..report(PillState::Idle, None) },
        ),
        Err(e) => (
            DictationView { live_typed: Seq::empty(), phase: PhaseView::Ready, ..d },
            report(PillState::Error, Some("inject failed: "@ + e)),
        ),
    }
}

/// One step of the dictation worker: from its state and an event to its
/// next state and what it asks for. Events that the current phase does not
/// wait for change nothing.
pub open spec fn next(d: DictationView, e: EventView) -> (DictationView, StepView) {
    match (d.phase, e) {
        (PhaseView::Loading, EventView::ModelLoaded(Ok(()))) => (
            DictationView { phase: PhaseView::Ready, ..d },
            report(PillState::Idle, None),
        ),
        (PhaseView::Loading, EventView::ModelLoaded(Err(msg))) => (
            DictationView { phase: PhaseView::Stopped, ..d },
            report(
                PillState::Error,
                Some("failed to load Parakeet model: "@ + msg + " — run scripts/download-models.sh"@),
            ),
        ),
        (PhaseView::Ready, EventView::Job(PipeJob::Partial { sample_count, sample_rate })) => {
            if partial_too_short(sample_count, sample_rate) {
                (d, quiet())
            } else {
                (
                    DictationView { phase: PhaseView::TranscribingPartial, ..d },
                    StepView { work: Some(WorkView::Transcribe), ..quiet() },
                )
            }
        },
        (PhaseView::Ready, EventView::Job(PipeJob::Final { sample_count, sample_rate })) => {
            if final_too_short(sample_count, sample_rate) {
                (
                    d,
                    StepView {
                        clear_partial: true,
                        ..report(PillState::Idle, Some("recording too short"@))
                    },
                )
            } else {
                (
                    DictationView { phase: PhaseView::TranscribingFinal, ..d },
                    StepView {
                        clear_partial: true,
                        work: Some(WorkView::Transcribe),
                        ..report(PillState::Transcribing, None)
                    },
                )
            }
        },
        (PhaseView::TranscribingPartial, EventView::Transcript(text)) => {
            if text.len() == 0 {
                (DictationView { phase: PhaseView::Ready, ..d }, quiet())
            } else if d.live_typing {
                (
                    DictationView { phase: PhaseView::TypingPartial { target: text }, ..d },
                    StepView {
                        partial: Some(text),
                        work: Some(edit_work(d.live_typed, text)),
                        ..quiet()
                    },
                )
            } else {
                (
                    DictationView { phase: PhaseView::Ready, ..d },
                    StepView { partial: Some(text), ..quiet() },
                )
            }
        },
        (PhaseView::TypingPartial { target }, EventView::Done(outcome)) => (
            DictationView {
                live_typed: if outcome is Ok {
                    target
                } else {
                    d.live_typed
                },
                phase: PhaseView::Ready,
                ..d
            },
            quiet(),
        ),
        (PhaseView::TranscribingFinal, EventView::Transcript(raw)) => {
            if raw.len() == 0 {
                (
                    DictationView { phase: PhaseView::ClearingSilence, ..d },
                    StepView { work: Some(edit_work(d.live_typed, Seq::empty())), ..quiet() },
                )
            } else if is_scratch(raw) {
                (
                    DictationView { phase: PhaseView::ClearingScratch, ..d },
                    StepView { work: Some(edit_work(d.live_typed, Seq::empty())), ..quiet() },
                )
            } else {
                (
                    DictationView { phase: PhaseView::Cleaning { raw }, ..d },
                    StepView { work: Some(WorkView::Clean(raw)), ..report(PillState::Cleaning, None) },
                )
            }
        },
        (PhaseView::ClearingSilence, EventView::Done(outcome)) => (
            DictationView {
                live_typed: if outcome is Ok {
                    Seq::empty()
                } else {
                    d.live_typed
                },
                phase: PhaseView::Ready,
                ..d
            },
            report(PillState::Idle, Some("heard nothing"@)),
        ),
        (PhaseView::ClearingScratch, EventView::Done(outcome)) => scratch_next(
            DictationView {
                live_typed: if outcome is Ok {
                    Seq::empty()
                } else {
                    d.live_typed
                },
                ..d
            },
        ),
        (PhaseView::Scratching, EventView::Done(outcome)) => (
            DictationView { phase: PhaseView::Ready, ..d },
            match outcome {
                Ok(()) => report(PillState::Idle, Some("scratched"@)),
                Err(msg) => report(PillState::Error, Some("scratch failed: "@ + msg)),
            },
        ),
        (PhaseView::Cleaning { raw }, EventView::Cleaned(cleaned)) => {
            if d.live_typed.len() > 0 || d.live_typing {
                (
                    DictationView { phase: PhaseView::Injecting { raw, cleaned }, ..d },
                    StepView {
                        work: Some(edit_work(d.live_typed, cleaned)),
                        ..report(PillState::Injecting, None)
                    },
                )
            } else {
                (
                    DictationView { phase: PhaseView::Injecting { raw, cleaned }, ..d },
                    StepView {
                        work: Some(WorkView::Inject(cleaned)),
                        ..report(PillState::Injecting, None)
                    },
                )
            }
        },
        (PhaseView::Injecting { raw, cleaned }, EventView::Done(outcome)) => injected_next(
            d,
            raw,
            cleaned,
            outcome,
        ),
        _ => (d, quiet()),
    }
}

// ---------------------------------------------------------------------------
// Laws of the dictation machine.
// ---------------------------------------------------------------------------

/// How many characters the last dictation put at the cursor changes only
/// when a dictation is injected (it becomes the cleaned text's length) or
/// when "scratch that" takes it to erase exactly that many characters.
pub proof fn law_last_injected_changes_only_by_injection_or_scratch(d: DictationView, e: EventView)
    ensures
        changed_only_by_injection_or_scratch(d, e),
{
    match (d.phase, e) {
        (PhaseView::ClearingScratch, EventView::Done(outcome)) => {
            let d0 = DictationView {
                live_typed: if outcome is Ok {
                    Seq::empty()
                } else {
                    d.live_typed
                },
                ..d
            };
            assert(next(d, e) == scratch_next(d0));
        },
        (PhaseView::Injecting { raw, cleaned }, EventView::Done(outcome)) => {
            assert(next(d, e) == injected_next(d, raw, cleaned, outcome));
        },
        _ => {
            assert(next(d, e).0.last_injected == d.last_injected);
        },
    }
}

/// The count of the last dictation is unchanged by a step, or the step
/// injected a dictation (and the count is its length), or it took the count
/// to erase that many characters.
pub open spec fn changed_only_by_injection_or_scratch(d: DictationView, e: EventView) -> bool {
    let d1 = next(d, e).0;
    let s1 = next(d, e).1;
    ||| d1.last_injected == d.last_injected
    ||| (d.phase matches PhaseView::Injecting { cleaned, .. } && e matches EventView::Done(outcome)
        && outcome is Ok && d1.last_injected == Some(cleaned.len()))
    ||| (d.last_injected matches Some(n) && d1.last_injected is None && s1.work == Some(
        WorkView::Delete(n),
    ) && d1.phase == PhaseView::Scratching)
}

/// Every non-empty partial transcript is shown in the pill, whether or not
/// live typing is on; live typing only adds the keystrokes that morph what it
/// typed so far into the partial, and without it nothing is typed.
pub proof fn law_partials_reach_the_pill(d: DictationView, text: Seq<char>)
    requires
        d.phase == PhaseView::TranscribingPartial,
        text.len() > 0,
    ensures
        next(d, EventView::Transcript(text)).1.partial == Some(text),
        d.live_typing ==> next(d, EventView::Transcript(text)).1.work == Some(
            edit_work(d.live_typed, text),
        ),
        !d.live_typing ==> next(d, EventView::Transcript(text)).1.work is None,
        !d.live_typing ==> next(d, EventView::Transcript(text)).0.phase == PhaseView::Ready,
{
}

/// A successful injection records the cleaned text's length.
pub proof fn law_injection_records_length(d: DictationView, raw: Seq<char>, cleaned: Seq<char>)
    requires
        d.phase == (PhaseView::Injecting { raw, cleaned }),
    ensures
        next(d, EventView::Done(Ok(()))).0.last_injected == Some(cleaned.len()),
        next(d, EventView::Done(Ok(()))).0.phase == PhaseView::Ready,
{
}

/// "Scratch that" erases exactly the previous dictation: while the worker
/// waits and the last dictation put `n` characters at the cursor, a finished
/// recording whose transcript is the command erases the live-typed words (if
/// any), then presses backspace exactly `n` times; nothing is cleaned up or
/// injected. The worker then reports "scratched" (or the failure), and a
/// second "scratch that" has nothing to erase.
pub proof fn law_scratch_erases_last_dictation(
    d: DictationView,
    n: nat,
    sample_count: u64,
    sample_rate: u32,
    command: Seq<char>,
    cleared: Result<(), Seq<char>>,
    deleted: Result<(), Seq<char>>,
)
    requires
        d.phase == PhaseView::Ready,
        d.last_injected == Some(n),
        !final_too_short(sample_count, sample_rate),
        is_scratch(command),
    ensures
        ({
            let job = EventView::Job(PipeJob::Final { sample_count, sample_rate });
            let (d1, s1) = next(d, job);
            let (d2, s2) = next(d1, EventView::Transcript(command));
            let (d3, s3) = next(d2, EventView::Done(cleared));
            let (d4, s4) = next(d3, EventView::Done(deleted));
            let (d5, s5) = next(d4, job);
            let (d6, s6) = next(d5, EventView::Transcript(command));
            let (d7, s7) = next(d6, EventView::Done(Ok(())));
            &&& s2.work == Some(edit_work(d.live_typed, Seq::empty()))
            &&& s3.work == Some(WorkView::Delete(n))
            &&& s3.status == Some((PillState::Injecting, None::<Seq<char>>))
            &&& d3.last_injected is None
            &&& d4.phase == PhaseView::Ready
            &&& s4.status == match deleted {
                Ok(()) => Some((PillState::Idle, Some("scratched"@))),
                Err(msg) => Some((PillState::Error, Some("scratch failed: "@ + msg))),
            }
            &&& s7.work is None
            &&& s7.status == Some((PillState::Idle, Some("nothing to scratch"@)))
            &&& d7.phase == PhaseView::Ready
        }),
{
}

/// A successful edit of the text at the cursor leaves exactly the target
/// there: live typing tracks what it typed.
pub proof fn law_live_typing_tracks_cursor(d: DictationView, text: Seq<char>)
    requires
        d.phase == PhaseView::TranscribingPartial,
        d.live_typing,
        text.len() > 0,
    ensures
        ({
            let (d1, s1) = next(d, EventView::Transcript(text));
            let (d2, s2) = next(d1, EventView::Done(Ok(())));
            &&& s1.work matches Some(WorkView::Edit { backspaces, addition })
                && backspaces <= d.live_typed.len()
                && d.live_typed.take(d.live_typed.len() - backspaces) + addition == text
            &&& d2.live_typed == text
            &&& d2.phase == PhaseView::Ready
        }),
{
    lemma_edit_reaches_target(d.live_typed, text);
}

/// Whatever happens to a finished recording, the worker comes back to
/// waiting for the next one once the outside work reports back, and no
/// live-typed text survives a successful dictation.
pub proof fn law_dictation_returns_to_ready(
    d: DictationView,
    raw: Seq<char>,
    cleaned: Seq<char>,
    outcome: Result<(), Seq<char>>,
)
    requires
        d.phase == PhaseView::TranscribingFinal,
        raw.len() > 0,
        !is_scratch(raw),
    ensures
        ({
            let (d1, s1) = next(d, EventView::Transcript(raw));
            let (d2, s2) = next(d1, EventView::Cleaned(cleaned));
            let (d3, s3) = next(d2, EventView::Done(outcome));
            &&& s1.work == Some(WorkView::Clean(raw))
            &&& d3.phase == PhaseView::Ready
            &&& d3.live_typed.len() == 0
            &&& (outcome is Ok ==> s3.result == Some((raw, cleaned)) && d3.last_injected == Some(
                cleaned.len(),
            ))
            &&& (outcome is Err ==> d3.last_injected == d.last_injected)
        }),
{
}

// ---------------------------------------------------------------------------
// The dictation machine, executable.
// ---------------------------------------------------------------------------

fn quiet_step() -> (s: Step)
    ensures
        s@ == quiet(),
{
    Step { clear_partial: false, partial: None, result: None, status: None, work: None }
}

fn report_step(state: PillState, detail: Option<String>) -> (s: Step)
    ensures
        s@ == report(state, opt_view(detail)),
{
    Step {
        clear_partial: false,
        partial: None,
        result: None,
        status: Some(Status { state, detail }),
        work: None,
    }
}

/// `prefix` followed by `rest`.
fn message(prefix: &str, rest: &str) -> (s: String)
    ensures
        s@ == prefix@ + rest@,
{
    let mut s = String::new();
    push_str(&mut s, prefix);
    push_str(&mut s, rest);
    s
}

fn edit_to(current: &String, target: &str) -> (w: Work)
    ensures
        w@ == edit_work(current@, target@),
{
    let (backspaces, addition) = plan_edit(current.as_str(), target);
    Work::Edit { backspaces, addition }
}

impl Dictation {
    /// The worker as it starts: loading the speech model, with the given
    /// live-typing setting. The step reports that the model is loading.
    pub fn new(live_typing: bool) -> (r: (Dictation, Step))
        ensures
            r.0@ == (DictationView {
                live_typing,
                last_injected: None,
                live_typed: Seq::empty(),
                phase: PhaseView::Loading,
            }),
            r.1@ == report(PillState::LoadingModel, None),
    {
        (
            Dictation {
                live_typing,
                last_injected: None,
                live_typed: String::new(),
                phase: Phase::Loading,
            },
            report_step(PillState::LoadingModel, None),
        )
    }

    /// Whether partial transcripts are typed at the cursor.
    pub fn live_typing(&self) -> (r: bool)
        ensures
            r == self.live_typing,
    {
        self.live_typing
    }

    /// Turns typing of partial transcripts at the cursor on or off; nothing
    /// else changes.
    pub fn set_live_typing(&mut self, on: bool)
        ensures
            final(self)@ == (DictationView { live_typing: on, ..old(self)@ }),
    {
        self.live_typing = on;
    }

    /// Whether the worker waits for a recording.
    pub fn is_ready(&self) -> (r: bool)
        ensures
            r == (self.phase@ is Ready),
    {
        match self.phase {
            Phase::Ready => true,
            _ => false,
        }
    }

    fn scratch_next(self) -> (r: (Dictation, Step))
        ensures
            (r.0@, r.1@) == scratch_next(self@),
    {
        match self.last_injected {
            Some(n) => (
                Dictation { last_injected: None, phase: Phase::Scratching, ..self },
                Step { work: Some(Work::Delete(n)), ..report_step(PillState::Injecting, None) },
            ),
            None => (
                Dictation { phase: Phase::Ready, ..self },
                report_step(PillState::Idle, Some(owned("nothing to scratch"))),
            ),
        }
    }

    fn injected_next(self, raw: String, cleaned: String, outcome: Result<(), String>) -> (r: (
        Dictation,
        Step,
    ))
        ensures
            (r.0@, r.1@) == injected_next(self@, raw@, cleaned@, result_view(outcome)),
    {
        match outcome {
            Ok(()) => {
                let count = cleaned.as_str().unicode_len();
                (
                    Dictation {
                        live_typed: String::new(),
                        last_injected: Some(count),
                        phase: Phase::Ready,
                        ..self
                    },
                    Step { result: Some((raw, cleaned)), ..report_step(PillState::Idle, None) },
                )
            },
            Err(e) => (
                Dictation { live_typed: String::new(), phase: Phase::Ready, ..self },
                report_step(PillState::Error, Some(message("inject failed: ", e.as_str()))),
            ),
        }
    }

    /// One step: from the worker's state and an event to its next state and
    /// what it asks for (see [`next`]).
    pub fn step(self, event: Event) -> (r: (Dictation, Step))
        ensures
            (r.0@, r.1@) == next(self@, event@),
    {
        let d = self;
        match (d.phase, event) {
            (Phase::Loading, Event::ModelLoaded(Ok(()))) => (
                Dictation { phase: Phase::Ready, ..d },
                report_step(PillState::Idle, None),
            ),
            (Phase::Loading, Event::ModelLoaded(Err(msg))) => {
                let mut detail = message("failed to load Parakeet model: ", msg.as_str());
                push_str(&mut detail, " — run scripts/download-models.sh");
                (Dictation { phase: Phase::Stopped, ..d }, report_step(PillState::Error, Some(detail)))
            },
            (Phase::Ready, Event::Job(PipeJob::Partial { sample_count, sample_rate })) => {
                if (sample_count as u128) * 2 < sample_rate as u128 {
                    (Dictation { phase: Phase::Ready, ..d }, quiet_step())
                } else {
                    (
                        Dictation { phase: Phase::TranscribingPartial, ..d },
                        Step { work: Some(Work::Transcribe), ..quiet_step() },
                    )
                }
            },
            (Phase::Ready, Event::Job(PipeJob::Final { sample_count, sample_rate })) => {
                if (sample_count as u128) * 5 < sample_rate as u128 {
                    (
                        Dictation { phase: Phase::Ready, ..d },
                        Step {
                            clear_partial: true,
                            ..report_step(PillState::Idle, Some(owned("recording too short")))
                        },
                    )
                } else {
                    (
                        Dictation { phase: Phase::TranscribingFinal, ..d },
                        Step {
                            clear_partial: true,
                            work: Some(Work::Transcribe),
                            ..report_step(PillState::Transcribing, None)
                        },
                    )
                }
            },
            (Phase::TranscribingPartial, Event::Transcript(text)) => {
                if text.as_str().unicode_len() == 0 {
                    (Dictation { phase: Phase::Ready, ..d }, quiet_step())
                } else if d.live_typing {
                    let w = edit_to(&d.live_typed, text.as_str());
                    let shown = text.clone();
                    (
                        Dictation { phase: Phase::TypingPartial { target: text }, ..d },
                        Step { partial: Some(shown), work: Some(w), ..quiet_step() },
                    )
                } else {
                    (
                        Dictation { phase: Phase::Ready, ..d },
                        Step { partial: Some(text), ..quiet_step() },
                    )
                }
            },
            (Phase::TypingPartial { target }, Event::Done(outcome)) => {
                let typed = match outcome {
                    Ok(()) => target,
                    Err(_) => d.live_typed,
                };
                (
                    Dictation { live_typed: typed, phase: Phase::Ready, ..d },
                    quiet_step(),
                )
            },
            (Phase::TranscribingFinal, Event::Transcript(raw)) => {
                if raw.as_str().unicode_len() == 0 {
                    let w = edit_to(&d.live_typed, String::new().as_str());
                    (
                        Dictation { phase: Phase::ClearingSilence, ..d },
                        Step { work: Some(w), ..quiet_step() },
                    )
                } else if is_scratch_command(raw.as_str()) {
                    let w = edit_to(&d.live_typed, String::new().as_str());
                    (
                        Dictation { phase: Phase::ClearingScratch, ..d },
                        Step { work: Some(w), ..quiet_step() },
                    )
                } else {
                    let sent = raw.clone();
                    (
                        Dictation { phase: Phase::Cleaning { raw }, ..d },
                        Step {
                            work: Some(Work::Clean(sent)),
                            ..report_step(PillState::Cleaning, None)
                        },
                    )
                }
            },
            (Phase::ClearingSilence, Event::Done(outcome)) => {
                let typed = match outcome {
                    Ok(()) => String::new(),
                    Err(_) => d.live_typed,
                };
                (
                    Dictation { live_typed: typed, phase: Phase::Ready, ..d },
                    report_step(PillState::Idle, Some(owned("heard nothing"))),
                )
            },
            (Phase::ClearingScratch, Event::Done(outcome)) => {
                let typed = match outcome {
                    Ok(()) => String::new(),
                    Err(_) => d.live_typed,
                };
                Dictation { live_typed: typed, phase: Phase::ClearingScratch, ..d }.scratch_next()
            },
            (Phase::Scratching, Event::Done(outcome)) => {
                let s = match outcome {
                    Ok(()) => report_step(PillState::Idle, Some(owned("scratched"))),
                    Err(msg) => report_step(
                        PillState::Error,
                        Some(message("scratch failed: ", msg.as_str())),
                    ),
                };
                (Dictation { phase: Phase::Ready, ..d }, s)
            },
            (Phase::Cleaning { raw }, Event::Cleaned(cleaned)) => {
                if d.live_typed.as_str().unicode_len() > 0 || d.live_typing {
                    let w = edit_to(&d.live_typed, cleaned.as_str());
                    (
                        Dictation { phase: Phase::Injecting { raw, cleaned }, ..d },
                        Step { work: Some(w), ..report_step(PillState::Injecting, None) },
                    )
                } else {
                    let sent = cleaned.clone();
                    (
                        Dictation { phase: Phase::Injecting { raw, cleaned }, ..d },
                        Step {
                            work: Some(Work::Inject(sent)),
                            ..report_step(PillState::Injecting, None)
                        },
                    )
                }
            },
            (Phase::Injecting { raw, cleaned }, Event::Done(outcome)) => {
                Dictation { phase: Phase::Ready, ..d }.injected_next(raw, cleaned, outcome)
            },
            (phase, _) => (Dictation { phase, ..d }, quiet_step()),
        }
    }
}

} // verus!
