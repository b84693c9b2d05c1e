use shout::audio::capture::{first_channel, AudioCmd, Capture, CaptureEvent, CaptureWork};
use shout::audio::vad::{split_windows, WINDOW};
use shout::hotkey::{command_for, KeyState};
use shout::pipeline::PillState;
use shout::stt::whisper::segments_text;

#[test]
fn windows_cover_all_samples() {
    let pending: Vec<u32> = (0..300).collect();
    let samples: Vec<u32> = (300..1300).collect();
    let (windows, rest) = split_windows(&pending, &samples);
    assert_eq!(windows.len(), 2);
    assert!(windows.iter().all(|w| w.len() == WINDOW));
    assert_eq!(rest.len(), 1300 - 2 * WINDOW);
    let joined: Vec<u32> = windows.into_iter().flatten().chain(rest).collect();
    assert_eq!(joined, (0..1300).collect::<Vec<u32>>());
    let (w, r) = split_windows(&Vec::<u32>::new(), &[1, 2, 3]);
    assert!(w.is_empty());
    assert_eq!(r, vec![1, 2, 3]);
}

#[test]
fn first_channel_of_frames() {
    assert_eq!(first_channel(&[1, 2, 3, 4, 5, 6], 2), vec![1, 3, 5]);
    assert_eq!(first_channel(&[1, 2, 3, 4, 5], 2), vec![1, 3, 5]);
    assert_eq!(first_channel(&[1, 2, 3], 1), vec![1, 2, 3]);
    assert_eq!(first_channel::<u8>(&[], 2), Vec::<u8>::new());
}

#[test]
fn push_to_talk() {
    assert_eq!(command_for(KeyState::Pressed), AudioCmd::Start);
    assert_eq!(command_for(KeyState::Released), AudioCmd::StopAndProcess);
    let c = Capture::Idle;
    let (c, s) = c.step(CaptureEvent::Command(AudioCmd::StopAndProcess));
    assert_eq!(c, Capture::Idle);
    assert!(s.work.is_none());
    let (c, s) = c.step(CaptureEvent::Command(AudioCmd::Start));
    assert_eq!(s.work, Some(CaptureWork::Open));
    let (c, s) = c.step(CaptureEvent::Opened(Ok(())));
    assert_eq!(s.status.unwrap().state, PillState::Recording);
    let (c, s) = c.step(CaptureEvent::Command(AudioCmd::Start));
    assert_eq!(c, Capture::Recording);
    assert!(s.work.is_none());
    let (c, s) = c.step(CaptureEvent::Command(AudioCmd::StopAndProcess));
    assert_eq!(c, Capture::Idle);
    assert_eq!(s.work, Some(CaptureWork::StopAndSend));
    let (c, _) = c.step(CaptureEvent::Command(AudioCmd::Start));
    let (c, s) = c.step(CaptureEvent::Opened(Err("no input device available".into())));
    assert_eq!(c, Capture::Idle);
    assert_eq!(s.status.unwrap().detail.unwrap(), "mic: no input device available");
}

#[test]
fn whisper_segments_join() {
    let segs = vec![" Hello there.".to_string(), "  General Kenobi. ".to_string()];
    assert_eq!(segments_text(&segs), "Hello there. General Kenobi.");
    assert_eq!(segments_text(&vec![]), "");
}
