use shout::pkm::obsidian::{file_name, note_body, slug, MeetingNote, TranscriptLine, MEETINGS_DIR};
use shout::stamp::Stamp;

fn note(transcript: Vec<TranscriptLine>) -> MeetingNote {
    MeetingNote {
        started_at: Stamp::new(2026, 7, 2, 14, 30, 0).unwrap(),
        source: "mic".into(),
        speakers: vec!["speaker_1".into(), "speaker_2".into()],
        duration_min: 47,
        summary: "TL;DR: things happened.".into(),
        transcript,
    }
}

#[test]
fn writes_note_per_schema() {
    let note = note(vec![TranscriptLine {
        speaker: "speaker_1".into(),
        at_secs: 2,
        text: "hello".into(),
    }]);
    assert_eq!(MEETINGS_DIR, "Meetings");
    assert_eq!(file_name(&note), "2026-07-02-1430-hello.md");
    let s = note_body(&note);
    assert!(s.starts_with("---\ndate: 2026-07-02T14:30\n"));
    assert!(s.contains("speakers: [speaker_1, speaker_2]"));
    assert!(s.contains("## Summary"));
    assert!(s.contains("> **speaker_1** (00:02): hello"));
}

#[test]
fn note_body_exact() {
    let mut n = note(vec![
        TranscriptLine { speaker: "speaker_1".into(), at_secs: 2, text: "hello".into() },
        TranscriptLine { speaker: "speaker_2".into(), at_secs: 3725, text: "bye".into() },
    ]);
    n.summary = "  TL;DR.\n".into();
    assert_eq!(
        note_body(&n),
        "---\ndate: 2026-07-02T14:30\nsource: mic\nspeakers: [speaker_1, speaker_2]\n\
         duration_min: 47\ntags: [meeting, ghost-capture]\n---\n## Summary\nTL;DR.\n\n\
         ## Transcript\n> **speaker_1** (00:02): hello\n> **speaker_2** (62:05): bye\n"
    );
}

#[test]
fn slug_takes_four_words() {
    let n = note(vec![TranscriptLine {
        speaker: "speaker_1".into(),
        at_secs: 0,
        text: "  Good morning, Everyone!  Let's begin now".into(),
    }]);
    assert_eq!(slug(&n), "good-morning-everyone-lets");
}

#[test]
fn slug_defaults_to_meeting() {
    assert_eq!(slug(&note(vec![])), "meeting");
    let n = note(vec![TranscriptLine { speaker: "s".into(), at_secs: 0, text: "?!".into() }]);
    assert_eq!(slug(&n), "meeting");
    assert_eq!(file_name(&note(vec![])), "2026-07-02-1430-meeting.md");
}

#[test]
fn stamp_rejects_invalid_dates() {
    assert!(Stamp::new(2024, 2, 29, 0, 0, 0).is_some());
    assert!(Stamp::new(2023, 2, 29, 0, 0, 0).is_none());
    assert!(Stamp::new(1900, 2, 29, 0, 0, 0).is_none());
    assert!(Stamp::new(2000, 2, 29, 0, 0, 0).is_some());
    assert!(Stamp::new(2026, 4, 31, 0, 0, 0).is_none());
    assert!(Stamp::new(2026, 13, 1, 0, 0, 0).is_none());
    assert!(Stamp::new(2026, 1, 1, 24, 0, 0).is_none());
    assert!(Stamp::new(2026, 1, 1, 23, 59, 59).is_some());
}

#[test]
fn far_years_render_with_sign() {
    let mut n = note(vec![]);
    n.started_at = Stamp::new(12345, 1, 2, 3, 4, 5).unwrap();
    assert_eq!(file_name(&n), "+12345-01-02-0304-meeting.md");
    n.started_at = Stamp::new(-5, 1, 2, 3, 4, 5).unwrap();
    assert_eq!(file_name(&n), "-0005-01-02-0304-meeting.md");
    n.started_at = Stamp::new(987, 1, 2, 3, 4, 5).unwrap();
    assert_eq!(file_name(&n), "0987-01-02-0304-meeting.md");
}
