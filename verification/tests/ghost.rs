use shout::config::Config;
use shout::ghost::{
    check_speech, duration_minutes, ghost_device, meeting_note, note_source, seconds_from_start,
    segment_file_name, session_dir_name, sessions_root, speaker_count, speaker_names, summary_or_notice,
    transcript, transcript_text, utterances, GhostCmd, GhostEvent, GhostPhase, GhostWork,
};
use shout::pipeline::PillState;
use shout::pkm::obsidian::note_body;
use shout::stamp::Stamp;

#[test]
fn ghost_device_preference() {
    let mut cfg = Config::default();
    assert_eq!(ghost_device(&cfg), None);
    assert_eq!(note_source(&cfg), "default mic");
    cfg.input_device = Some("MacBook Mic".into());
    assert_eq!(ghost_device(&cfg), Some("MacBook Mic"));
    cfg.ghost_input_device = Some("Aggregate".into());
    assert_eq!(ghost_device(&cfg), Some("Aggregate"));
    assert_eq!(note_source(&cfg), "Aggregate");
}

#[test]
fn toggle_starts_and_finishes() {
    let p = GhostPhase::Idle;
    let (p, s) = p.step(GhostEvent::Tick);
    assert_eq!(p, GhostPhase::Idle);
    assert!(s.work.is_none());
    let (p, s) = p.step(GhostEvent::Command(GhostCmd::Toggle));
    assert_eq!(s.work, Some(GhostWork::Start));
    let (p, s) = p.step(GhostEvent::Started(Ok(())));
    assert_eq!(p, GhostPhase::Recording);
    assert_eq!(s.status.unwrap().state, PillState::GhostRecording);
    let (p, s) = p.step(GhostEvent::Tick);
    assert_eq!(s.work, Some(GhostWork::Pump));
    let (p, s) = p.step(GhostEvent::Command(GhostCmd::Toggle));
    assert_eq!(s.work, Some(GhostWork::Finish));
    assert_eq!(s.status.unwrap().state, PillState::GhostProcessing);
    let (p, s) = p.step(GhostEvent::Finished(Ok("/v/Meetings/x.md".into())));
    assert_eq!(p, GhostPhase::Idle);
    assert_eq!(s.note.as_deref(), Some("/v/Meetings/x.md"));
    assert_eq!(s.status.unwrap().detail.unwrap(), "note: /v/Meetings/x.md");
    let (p, _) = p.step(GhostEvent::Disconnected);
    assert!(p.is_stopped());
}

#[test]
fn ghost_failures_are_reported() {
    let (p, _) = GhostPhase::Idle.step(GhostEvent::Command(GhostCmd::Toggle));
    let (p, s) = p.step(GhostEvent::Started(Err("missing VAD model".into())));
    assert_eq!(p, GhostPhase::Idle);
    assert_eq!(s.status.unwrap().detail.unwrap(), "ghost: missing VAD model");
    assert_eq!(check_speech(0).unwrap_err(), "no speech detected in this session");
    assert!(check_speech(3).is_ok());
}

#[test]
fn durations_round_to_minutes() {
    assert_eq!(duration_minutes(-5), 0);
    assert_eq!(duration_minutes(29), 0);
    assert_eq!(duration_minutes(30), 1);
    assert_eq!(duration_minutes(89), 1);
    assert_eq!(duration_minutes(90), 2);
    assert_eq!(duration_minutes(2820), 47);
}

#[test]
fn spool_names() {
    assert_eq!(segment_file_name(0), "seg0000.wav");
    assert_eq!(segment_file_name(42), "seg0042.wav");
    assert_eq!(segment_file_name(12345), "seg12345.wav");
    let st = Stamp::new(2026, 7, 2, 14, 30, 5).unwrap();
    assert_eq!(session_dir_name(&st), "2026-07-02-143005");
    assert_eq!(sessions_root("/home/j"), "/home/j/.config/shout/sessions");
}

#[test]
fn speakers_and_transcript() {
    let starts = vec![32000i64, 80000, 160000];
    let texts = vec!["Quarterly numbers.".to_string(), String::new(), "Action item: ship.".to_string()];
    let us = utterances(&starts, &texts);
    assert_eq!(us.len(), 2);
    assert_eq!(us[1].chunk, 2);
    let speaker_of = vec![0usize, 1, 1];
    assert_eq!(speaker_count(&speaker_of), 2);
    assert_eq!(speaker_count(&vec![]), 1);
    assert_eq!(speaker_names(2), vec!["speaker_1".to_string(), "speaker_2".to_string()]);
    let lines = transcript(&us, &speaker_of);
    assert_eq!(lines[0].speaker, "speaker_1");
    assert_eq!(lines[0].at_secs, 2);
    assert_eq!(lines[1].speaker, "speaker_2");
    assert_eq!(lines[1].at_secs, 10);
    assert_eq!(
        transcript_text(&lines),
        "speaker_1: Quarterly numbers.\nspeaker_2: Action item: ship."
    );
    // Chunks the diarizer did not label go to the first speaker.
    let lines = transcript(&us, &vec![]);
    assert_eq!(lines[1].speaker, "speaker_1");
    assert_eq!(seconds_from_start(-1), 0);
    assert_eq!(seconds_from_start(15999), 0);
}

#[test]
fn note_assembly() {
    let cfg = Config::default();
    let us = utterances(&vec![0], &vec!["Hello all".to_string()]);
    let lines = transcript(&us, &vec![0]);
    let note = meeting_note(
        &cfg,
        Stamp::new(2026, 7, 2, 14, 30, 0).unwrap(),
        2820,
        &vec![0],
        lines,
        Err("server returned 500".into()),
    );
    assert_eq!(note.duration_min, 47);
    assert_eq!(note.summary, "*Summary unavailable (server returned 500).*");
    assert_eq!(note.source, "default mic");
    let body = note_body(&note);
    assert!(body.contains("## Transcript\n> **speaker_1** (00:00): Hello all\n"));
    assert_eq!(summary_or_notice(Ok("S".into())), "S");
}
