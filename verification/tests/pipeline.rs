use shout::pipeline::{
    last_status, place_pill, plan_edit, Dictation, Event, Monitor, Phase, PillAction, PillState,
    PipeJob, Position, Rect, Status, Work,
};
use shout::pipeline::{is_scratch_command, pick_job};

fn ready(live_typing: bool) -> Dictation {
    let (d, s) = Dictation::new(live_typing);
    assert_eq!(s.status.as_ref().unwrap().state, PillState::LoadingModel);
    let (d, s) = d.step(Event::ModelLoaded(Ok(())));
    assert_eq!(s.status.unwrap().state, PillState::Idle);
    assert!(d.is_ready());
    d
}

fn final_job() -> Event {
    Event::Job(PipeJob::Final { sample_count: 16000, sample_rate: 16000 })
}

/// Runs a finished recording through to its injection, returning the state.
fn dictate(d: Dictation, raw: &str, cleaned: &str) -> Dictation {
    let (d, s) = d.step(final_job());
    assert!(matches!(s.work, Some(Work::Transcribe)));
    let (d, s) = d.step(Event::Transcript(raw.into()));
    assert!(matches!(s.work, Some(Work::Clean(ref r)) if r == raw));
    let (d, _) = d.step(Event::Cleaned(cleaned.into()));
    let (d, s) = d.step(Event::Done(Ok(())));
    assert_eq!(s.result, Some((raw.to_string(), cleaned.to_string())));
    d
}

#[test]
fn model_failure_stops_dictation() {
    let (d, _) = Dictation::new(false);
    let (d, s) = d.step(Event::ModelLoaded(Err("missing model file".into())));
    let st = s.status.unwrap();
    assert_eq!(st.state, PillState::Error);
    assert_eq!(
        st.detail.unwrap(),
        "failed to load Parakeet model: missing model file — run scripts/download-models.sh"
    );
    assert!(matches!(d.phase, Phase::Stopped));
    let (d, s) = d.step(final_job());
    assert!(matches!(d.phase, Phase::Stopped));
    assert!(s.work.is_none());
}

#[test]
fn short_recordings_are_ignored() {
    let d = ready(false);
    let (d, s) = d.step(Event::Job(PipeJob::Partial { sample_count: 7999, sample_rate: 16000 }));
    assert!(s.work.is_none() && s.status.is_none());
    let (d, s) = d.step(Event::Job(PipeJob::Final { sample_count: 3199, sample_rate: 16000 }));
    assert!(s.clear_partial);
    let st = s.status.unwrap();
    assert_eq!(st.state, PillState::Idle);
    assert_eq!(st.detail.unwrap(), "recording too short");
    assert!(d.is_ready());
    let (_, s) = d.step(Event::Job(PipeJob::Final { sample_count: 3200, sample_rate: 16000 }));
    assert!(matches!(s.work, Some(Work::Transcribe)));
    assert_eq!(s.status.unwrap().state, PillState::Transcribing);
}

#[test]
fn dictation_injects_cleaned_text() {
    let d = ready(false);
    let (d, _) = d.step(final_job());
    let (d, s) = d.step(Event::Transcript("um hello world".into()));
    assert_eq!(s.status.unwrap().state, PillState::Cleaning);
    let (d, s) = d.step(Event::Cleaned("Hello world.".into()));
    assert!(matches!(s.work, Some(Work::Inject(ref t)) if t == "Hello world."));
    let (d, s) = d.step(Event::Done(Ok(())));
    assert_eq!(s.status.unwrap().state, PillState::Idle);
    assert_eq!(d.last_injected, Some(12));
}

#[test]
fn heard_nothing() {
    let d = ready(false);
    let (d, _) = d.step(final_job());
    let (d, s) = d.step(Event::Transcript(String::new()));
    assert!(matches!(s.work, Some(Work::Edit { backspaces: 0, ref addition }) if addition.is_empty()));
    let (d, s) = d.step(Event::Done(Ok(())));
    assert_eq!(s.status.unwrap().detail.unwrap(), "heard nothing");
    assert!(d.is_ready());
}

#[test]
fn scratch_that_erases_previous_dictation() {
    let d = dictate(ready(false), "hello there", "Hello there.");
    let (d, _) = d.step(final_job());
    let (d, s) = d.step(Event::Transcript("Scratch that.".into()));
    assert!(matches!(s.work, Some(Work::Edit { backspaces: 0, .. })));
    let (d, s) = d.step(Event::Done(Ok(())));
    assert!(matches!(s.work, Some(Work::Delete(12))));
    assert_eq!(s.status.unwrap().state, PillState::Injecting);
    let (d, s) = d.step(Event::Done(Ok(())));
    assert_eq!(s.status.unwrap().detail.unwrap(), "scratched");
    // A second "scratch that" has nothing left to erase.
    let (d, _) = d.step(final_job());
    let (d, _) = d.step(Event::Transcript("scratch that".into()));
    let (d, s) = d.step(Event::Done(Ok(())));
    assert!(s.work.is_none());
    assert_eq!(s.status.unwrap().detail.unwrap(), "nothing to scratch");
    assert!(d.is_ready());
}

#[test]
fn scratch_erases_a_long_dictation_in_full() {
    let long = "word ".repeat(1200);
    let d = dictate(ready(false), "a long dictation", &long);
    assert_eq!(d.last_injected, Some(6000));
    let (d, _) = d.step(final_job());
    let (d, _) = d.step(Event::Transcript("scratch that".into()));
    let (_, s) = d.step(Event::Done(Ok(())));
    assert!(matches!(s.work, Some(Work::Delete(6000))));
}

#[test]
fn scratch_failure_is_reported() {
    let d = dictate(ready(false), "a", "A");
    let (d, _) = d.step(final_job());
    let (d, _) = d.step(Event::Transcript("scratch that".into()));
    let (d, _) = d.step(Event::Done(Ok(())));
    let (_, s) = d.step(Event::Done(Err("timed out".into())));
    let st = s.status.unwrap();
    assert_eq!(st.state, PillState::Error);
    assert_eq!(st.detail.unwrap(), "scratch failed: timed out");
}

#[test]
fn inject_failure_keeps_previous_count() {
    let d = dictate(ready(false), "one", "One.");
    let (d, _) = d.step(final_job());
    let (d, _) = d.step(Event::Transcript("two".into()));
    let (d, _) = d.step(Event::Cleaned("Two.".into()));
    let (d, s) = d.step(Event::Done(Err("no accessibility".into())));
    assert_eq!(s.status.unwrap().detail.unwrap(), "inject failed: no accessibility");
    assert_eq!(d.last_injected, Some(4));
}

#[test]
fn live_typing_morphs_cursor_text() {
    let d = ready(true);
    assert!(d.live_typing());
    let (d, s) = d.step(Event::Job(PipeJob::Partial { sample_count: 8000, sample_rate: 16000 }));
    assert!(matches!(s.work, Some(Work::Transcribe)));
    let (d, s) = d.step(Event::Transcript("hello wor".into()));
    assert_eq!(s.partial.as_deref(), Some("hello wor"));
    assert!(matches!(s.work, Some(Work::Edit { backspaces: 0, ref addition }) if addition == "hello wor"));
    let (d, _) = d.step(Event::Done(Ok(())));
    assert_eq!(d.live_typed, "hello wor");
    let (d, _) = d.step(final_job());
    let (d, _) = d.step(Event::Transcript("hello world".into()));
    let (d, s) = d.step(Event::Cleaned("Hello world.".into()));
    assert!(matches!(s.work, Some(Work::Edit { backspaces: 9, ref addition }) if addition == "Hello world."));
    let (d, _) = d.step(Event::Done(Ok(())));
    assert_eq!(d.live_typed, "");
    assert_eq!(d.last_injected, Some(12));
}

#[test]
fn set_live_typing_flips_flag() {
    let mut d = ready(false);
    d.set_live_typing(true);
    assert!(d.live_typing());
}

#[test]
fn plan_edit_keeps_common_prefix() {
    assert_eq!(plan_edit("hello wor", "hello world"), (0, "ld".to_string()));
    assert_eq!(plan_edit("hello there", "help"), (8, "p".to_string()));
    assert_eq!(plan_edit("same", "same"), (0, String::new()));
    assert_eq!(plan_edit("", "héllo"), (0, "héllo".to_string()));
    assert_eq!(plan_edit("héllo", ""), (5, String::new()));
}

#[test]
fn scratch_command_recognition() {
    assert!(is_scratch_command("scratch that"));
    assert!(is_scratch_command("  Scratch that!  "));
    assert!(is_scratch_command("SCRATCH, THAT."));
    assert!(!is_scratch_command("scratch that please"));
    assert!(!is_scratch_command("scratchthat"));
}

#[test]
fn last_status_defaults_to_starting() {
    let s = last_status(None);
    assert_eq!(s.state, PillState::Starting);
    assert_eq!(s.state.name(), "starting");
    assert!(s.detail.is_none());
    let s = last_status(Some(Status { state: PillState::Error, detail: Some("x".into()) }));
    assert_eq!(s.state.name(), "error");
    assert_eq!(s.detail.as_deref(), Some("x"));
}

fn monitor(x: i32, y: i32, w: u32, h: u32) -> Monitor {
    let r = Rect { x, y, width: w, height: h };
    Monitor { bounds: r, work_area: Rect { x, y: y + 25, width: w, height: h - 100 }, margin: 32 }
}

#[test]
fn pill_placement() {
    let mons = vec![monitor(0, 0, 2560, 1600), monitor(2560, 0, 1920, 1080)];
    assert_eq!(place_pill(PillState::Idle, Some((10, 10)), Some((200, 40)), Some(mons.clone())), PillAction::Hide);
    // Cursor on the second monitor.
    assert_eq!(
        place_pill(PillState::Recording, Some((3000, 500)), Some((200, 40)), Some(mons.clone())),
        PillAction::Show { position: Some(Position { x: 2560 + 860, y: 25 + 980 - 40 - 32 }) }
    );
    // Cursor nowhere: first monitor.
    assert_eq!(
        place_pill(PillState::Recording, Some((-5, 500)), Some((200, 40)), Some(mons.clone())),
        PillAction::Show { position: Some(Position { x: 1180, y: 25 + 1500 - 40 - 32 }) }
    );
    // Unknown geometry: shown where it is.
    assert_eq!(
        place_pill(PillState::Cleaning, None, Some((200, 40)), Some(mons)),
        PillAction::Show { position: None }
    );
    assert_eq!(
        place_pill(PillState::Cleaning, Some((0, 0)), Some((200, 40)), Some(vec![])),
        PillAction::Show { position: None }
    );
    // A pill wider than the work area sits at its left edge.
    let narrow = vec![monitor(0, 0, 100, 1000)];
    assert_eq!(
        place_pill(PillState::Injecting, Some((1, 1)), Some((200, 40)), Some(narrow)),
        PillAction::Show { position: Some(Position { x: 0, y: 25 + 900 - 40 - 32 }) }
    );
}

#[test]
fn job_kinds() {
    assert!(PipeJob::Partial { sample_count: 1, sample_rate: 1 }.is_partial());
    assert!(!PipeJob::Final { sample_count: 1, sample_rate: 1 }.is_partial());
}

#[test]
fn pick_job_never_skips_final() {
    let p = PipeJob::Partial { sample_count: 1, sample_rate: 1 };
    let f = PipeJob::Final { sample_count: 1, sample_rate: 1 };
    assert_eq!(pick_job(&vec![p]), 0);
    assert_eq!(pick_job(&vec![p, p, p]), 2);
    assert_eq!(pick_job(&vec![p, f, p]), 1);
    assert_eq!(pick_job(&vec![f, p]), 0);
    assert_eq!(pick_job(&vec![p, p, f, f]), 2);
}
