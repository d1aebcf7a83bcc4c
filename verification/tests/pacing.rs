use hiekkapeli::pacing::{FrameClock, FramePlan, REFRESH_EVERY, REPORT_AFTER, WINDOW};

#[test]
fn the_constants_of_the_clock() {
    assert_eq!(WINDOW, 30);
    assert_eq!(REFRESH_EVERY, 4);
    assert_eq!(REPORT_AFTER, 30);
}

#[test]
fn a_new_clock_is_empty() {
    let clock = FrameClock::new();
    assert_eq!(clock.frames(), 0);
    assert_eq!(clock.samples(), Vec::<u128>::new());
}

#[test]
fn the_first_frame_refreshes_and_is_remembered() {
    let mut clock = FrameClock::new();
    assert_eq!(clock.on_frame(16_000_000), FramePlan { refresh: true, report: false });
    assert_eq!(clock.frames(), 1);
    assert_eq!(clock.samples(), vec![16_000_000]);
}

#[test]
fn every_fourth_frame_refreshes() {
    let mut clock = FrameClock::new();
    for frame in 0..31u32 {
        let plan = clock.on_frame(u128::from(frame));
        assert_eq!(plan, FramePlan { refresh: frame % 4 == 0, report: false });
        assert_eq!(clock.frames(), frame + 1);
    }
}

#[test]
fn the_report_falls_due_after_thirty_frames_and_restarts_the_count() {
    let mut clock = FrameClock::new();
    for frame in 0..31u128 {
        assert!(!clock.on_frame(frame).report);
    }
    assert_eq!(clock.frames(), 31);
    assert_eq!(clock.on_frame(31), FramePlan { refresh: false, report: true });
    assert_eq!(clock.frames(), 1);
    for frame in 1..31u32 {
        let plan = clock.on_frame(0);
        assert_eq!(plan, FramePlan { refresh: frame % 4 == 0, report: false });
    }
    assert_eq!(clock.frames(), 31);
    assert_eq!(clock.on_frame(0), FramePlan { refresh: false, report: true });
    assert_eq!(clock.frames(), 1);
}

#[test]
fn the_clock_remembers_the_latest_thirty_frame_times() {
    let mut clock = FrameClock::new();
    for frame in 0..30u128 {
        clock.on_frame(frame);
    }
    assert_eq!(clock.samples(), (0..30u128).collect::<Vec<u128>>());
    clock.on_frame(30);
    assert_eq!(clock.samples(), (1..31u128).collect::<Vec<u128>>());
    for frame in 31..100u128 {
        clock.on_frame(frame);
    }
    assert_eq!(clock.samples(), (70..100u128).collect::<Vec<u128>>());
    clock.on_frame(u128::MAX);
    assert_eq!(clock.samples().len(), 30);
    assert_eq!(clock.samples()[29], u128::MAX);
    assert_eq!(clock.samples()[0], 71);
}
