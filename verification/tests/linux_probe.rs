use nvda_rust_uia_standalone::linux_probe::{EventCounts, EventFamily};

#[test]
fn events_are_counted_by_family() {
    let mut counts = EventCounts::new();
    assert!(!counts.runtime_passed());
    assert_eq!(counts.record(EventFamily::Focus), 1);
    assert_eq!(counts.record(EventFamily::Object), 2);
    assert_eq!(counts.record(EventFamily::Keyboard), 3);
    assert_eq!(counts.record(EventFamily::Window), 4);
    assert_eq!(
        counts,
        EventCounts { total: 4, focus: 1, object: 1, window: 1 }
    );
    assert!(counts.runtime_passed());
    assert_eq!(EventFamily::Terminal.name(), "terminal");
}

#[test]
fn a_full_counter_of_another_family_does_not_block_recording() {
    let mut counts = EventCounts { total: 5, focus: u64::MAX, object: 0, window: 0 };
    assert_eq!(counts.record(EventFamily::Window), 6);
    assert_eq!(counts.focus, u64::MAX);
    assert_eq!(counts.window, 1);
}
