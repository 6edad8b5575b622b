use velvet_capture::analysis::AnalysisResult;
use velvet_capture::producer::{
    interval_ms, pattern_detection, Action, Phase, Producer, StreamEvent, StreamKind, WorkOutcome,
};

fn analysis(text: &str, confidence: u32) -> AnalysisResult {
    AnalysisResult {
        screen_text: text.to_string(),
        transcript: String::new(),
        ocr_confidence: confidence,
        asr_confidence: 0,
    }
}

/// Runs one brain context tick at clock `now` and returns the stamp and
/// text of the event, if any; a delivered event is reported back.
fn brain_tick(p: &mut Producer, outcome: WorkOutcome, now: i64) -> Option<(i64, String)> {
    assert_eq!(p.next_action(), Action::Work);
    let r = p.complete_work(outcome, now).map(|e| match e {
        StreamEvent::Context(u) => (u.timestamp, u.screen_text),
        _ => panic!("not a context update"),
    });
    if r.is_some() {
        assert_eq!(p.next_action(), Action::Deliver);
        p.complete_send(true);
    }
    assert_eq!(p.next_action(), Action::Sleep(1000));
    p.complete_sleep();
    r
}

#[test]
fn gating_emits_second_and_fourth_tick() {
    let mut p = Producer::new(StreamKind::BrainContext, 900_000);
    let confidences = [500_000u32, 950_000, 200_000, 910_000];
    let mut events = Vec::new();
    for (i, c) in confidences.iter().enumerate() {
        let text = format!("tick {}", i + 1);
        if let Some(e) = brain_tick(&mut p, WorkOutcome::Analyzed(analysis(&text, *c)), 1000 * (i as i64 + 1)) {
            events.push(e);
        }
    }
    assert_eq!(events, vec![(2000, "tick 2".to_string()), (4000, "tick 4".to_string())]);
    assert_eq!(p.below_threshold(), 2);
    assert!(p.is_running());
}

#[test]
fn capture_failures_keep_stream_open() {
    let mut p = Producer::new(StreamKind::BrainContext, 900_000);
    let mut count = 0;
    for tick in 1..=4i64 {
        let outcome = if tick % 2 == 1 {
            WorkOutcome::CaptureFailed
        } else {
            WorkOutcome::Analyzed(analysis("text", 990_000))
        };
        if brain_tick(&mut p, outcome, tick * 1000).is_some() {
            count += 1;
        }
    }
    assert_eq!(count, 2);
    assert_eq!(p.capture_failures(), 2);
    assert!(p.is_running());
    assert_eq!(p.phase(), Phase::Working);
}

#[test]
fn threshold_equal_to_confidence_emits() {
    let mut p = Producer::new(StreamKind::BrainContext, 700_000);
    assert!(brain_tick(&mut p, WorkOutcome::Analyzed(analysis("a", 700_000)), 1).is_some());
    assert!(brain_tick(&mut p, WorkOutcome::Analyzed(analysis("b", 699_999)), 2).is_none());
}

#[test]
fn analysis_failure_skips_tick() {
    let mut p = Producer::new(StreamKind::BrainContext, 0);
    assert!(brain_tick(&mut p, WorkOutcome::AnalysisFailed, 1).is_none());
    assert_eq!(p.analysis_failures(), 1);
    assert!(p.is_running());
}

#[test]
fn context_update_fields() {
    let mut p = Producer::new(StreamKind::BrainContext, 100_000);
    let e = p.complete_work(WorkOutcome::Analyzed(analysis("hello", 400_000)), 77).unwrap();
    match e {
        StreamEvent::Context(u) => {
            assert_eq!(u.screen_text, "hello");
            assert_eq!(u.audio_transcript, "");
            assert!(u.patterns.is_empty());
            assert_eq!(u.ocr_confidence, 400_000);
            assert_eq!(u.asr_confidence, 0);
            assert_eq!(u.timestamp, 77);
            assert_eq!(u.metadata.active_app, "unknown");
        }
        _ => panic!("not a context update"),
    }
}

#[test]
fn patterns_for_twenty_five_seconds_emit_two() {
    let mut p = Producer::new(StreamKind::Patterns, 0);
    let mut clock: u64 = 0;
    let mut stamps = Vec::new();
    loop {
        match p.next_action() {
            Action::Sleep(ms) => {
                if clock + ms > 25_000 {
                    break;
                }
                clock += ms;
                p.complete_sleep();
            }
            Action::Work => {
                if let Some(e) = p.complete_work(WorkOutcome::PatternDue, clock as i64) {
                    stamps.push(e.timestamp());
                }
            }
            Action::Deliver => p.complete_send(true),
            Action::Stop => break,
        }
    }
    assert_eq!(stamps, vec![10_000, 20_000]);
}

#[test]
fn pattern_detection_content() {
    let d = pattern_detection(5);
    assert_eq!(d.pattern_type, "focus_session");
    assert_eq!(d.confidence, 800_000);
    assert_eq!(d.description, "User focused session detected");
    assert_eq!(d.timestamp, 5);
    assert_eq!(d.evidence, vec!["Screen activity".to_string()]);
}

#[test]
fn closed_channel_terminates() {
    let mut p = Producer::new(StreamKind::Screen, 0);
    assert!(p.complete_work(WorkOutcome::Frame(vec![1, 2, 3]), 1).is_some());
    p.complete_send(false);
    assert_eq!(p.phase(), Phase::Terminated);
    assert_eq!(p.next_action(), Action::Stop);
    assert!(p.complete_work(WorkOutcome::Frame(vec![4]), 2).is_none());
    p.complete_sleep();
    assert_eq!(p.next_action(), Action::Stop);
}

#[test]
fn cancel_stops_any_phase() {
    let mut p = Producer::new(StreamKind::Patterns, 0);
    assert_eq!(p.next_action(), Action::Sleep(10_000));
    p.cancel();
    assert!(!p.is_running());
    assert_eq!(p.next_action(), Action::Stop);
}

#[test]
fn screen_frame_fields() {
    let mut p = Producer::new(StreamKind::Screen, 0);
    match p.complete_work(WorkOutcome::Frame(vec![9, 8]), 42).unwrap() {
        StreamEvent::Frame(f) => {
            assert_eq!(f.data, vec![9, 8]);
            assert_eq!(f.timestamp, 42);
            assert_eq!((f.width, f.height), (1920, 1080));
        }
        _ => panic!("not a frame"),
    }
    p.complete_send(true);
    assert_eq!(p.next_action(), Action::Sleep(100));
}

#[test]
fn audio_chunk_fields() {
    let mut p = Producer::new(StreamKind::Audio, 0);
    match p.complete_work(WorkOutcome::AudioSamples(vec![7]), 3).unwrap() {
        StreamEvent::Audio(c) => {
            assert_eq!(c.data, vec![7]);
            assert_eq!(c.timestamp, 3);
        }
        _ => panic!("not an audio chunk"),
    }
}

#[test]
fn stamps_never_go_back() {
    let mut p = Producer::new(StreamKind::Screen, 0);
    let mut stamps = Vec::new();
    for now in [100i64, 50, 300, 200] {
        let e = p.complete_work(WorkOutcome::Frame(vec![]), now).unwrap();
        stamps.push(e.timestamp());
        p.complete_send(true);
        p.complete_sleep();
    }
    assert_eq!(stamps, vec![100, 100, 300, 300]);
}

#[test]
fn outcome_of_other_kind_emits_nothing() {
    let mut p = Producer::new(StreamKind::Screen, 0);
    assert!(p.complete_work(WorkOutcome::PatternDue, 1).is_none());
    assert_eq!(p.phase(), Phase::Sleeping);
}

#[test]
fn intervals_per_kind() {
    assert_eq!(interval_ms(StreamKind::Screen), 100);
    assert_eq!(interval_ms(StreamKind::BrainContext), 1000);
    assert_eq!(interval_ms(StreamKind::Patterns), 10_000);
}
