use nvda_rust_uia_standalone::windows_speech::{
    prepare_text, PlaybackDecision, SpeechCommand, SpeechDispatch, SpeechOutcome,
};

#[test]
fn blank_text_is_not_spoken() {
    assert_eq!(prepare_text("   "), None);
    assert_eq!(prepare_text(""), None);
    assert_eq!(prepare_text("  hello \n"), Some("hello".to_string()));
    let mut d = SpeechDispatch::new();
    assert_eq!(d.speak(" \t "), None);
    assert_eq!(d.speak_queued(""), None);
    assert_eq!(d.requested(), 0);
}

#[test]
fn latest_interactive_feedback_wins() {
    let mut d = SpeechDispatch::new();
    let first = d.speak("rapid selection 1").unwrap();
    let second = d.speak("rapid selection 2").unwrap();
    let (g1, g2) = match (&first, &second) {
        (
            SpeechCommand::Replace { sequence: 1, generation: g1, text: t1 },
            SpeechCommand::Replace { sequence: 2, generation: g2, text: t2 },
        ) => {
            assert_eq!(t1, "rapid selection 1");
            assert_eq!(t2, "rapid selection 2");
            (*g1, *g2)
        }
        other => panic!("unexpected commands {other:?}"),
    };
    assert!(d.is_superseded(g1));
    assert!(!d.is_superseded(g2));
}

#[test]
fn queued_speech_keeps_order_and_does_not_supersede() {
    let mut d = SpeechDispatch::new();
    let interactive = d.speak("focus").unwrap();
    let queued = d.speak_queued(" say all ").unwrap();
    assert_eq!(
        queued,
        SpeechCommand::Queued { sequence: 2, text: "say all".to_string() }
    );
    if let SpeechCommand::Replace { generation, .. } = interactive {
        assert!(!d.is_superseded(generation));
    } else {
        panic!("expected a replaceable command");
    }
}

#[test]
fn outcomes_update_counters() {
    let mut d = SpeechDispatch::new();
    d.record(SpeechOutcome::Output);
    d.record(SpeechOutcome::Output);
    d.record(SpeechOutcome::Failed);
    d.record(SpeechOutcome::Replaced);
    d.record(SpeechOutcome::EnqueueFailed);
    d.record(SpeechOutcome::FlushFailed);
    assert_eq!(d.output(), 2);
    assert_eq!(d.failed(), 2);
    assert_eq!(d.replaced(), 1);
    assert_eq!(d.queue_failures(), 2);
    assert_eq!(d.requested(), 0);
}

#[test]
fn superseded_feedback_is_replaced_at_playback() {
    let mut d = SpeechDispatch::new();
    let first = d.speak("first").unwrap();
    let second = d.speak("second").unwrap();
    let generation = |c: &SpeechCommand| match c {
        SpeechCommand::Replace { generation, .. } => *generation,
        other => panic!("unexpected command {other:?}"),
    };
    let (g1, g2) = (generation(&first), generation(&second));
    assert_eq!(g2, g1 + 1);
    assert_eq!(d.decide_playback(g1), PlaybackDecision::Replaced);
    assert_eq!(d.replaced(), 1);
    assert_eq!(d.output(), 0);
    assert_eq!(d.decide_playback(g2), PlaybackDecision::Play);
    assert_eq!(d.replaced(), 1);
}
