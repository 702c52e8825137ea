use remote_control::error::RemoteError;
use remote_control::gpio::Input;
use remote_control::sampler::{sample, EdgeEvent, Sampler, MAX_EVENTS, WINDOW_MS};

fn edges(offsets: &[u32], step_ms: u64) -> Vec<EdgeEvent> {
    let mut events = Vec::new();
    let mut at_ms = 0;
    for &offset in offsets {
        events.push(EdgeEvent { offset, at_ms });
        at_ms += step_ms;
    }
    events
}

#[test]
fn window_constants() {
    assert_eq!(WINDOW_MS, 300);
    assert_eq!(MAX_EVENTS, 16);
}

#[test]
fn sample_single_line_gives_its_position() {
    assert_eq!(sample(&edges(&[21], 1)), Ok(Input::P1));
    assert_eq!(sample(&edges(&[20, 20], 1)), Ok(Input::P2));
    assert_eq!(sample(&edges(&[16; 7], 10)), Ok(Input::P3));
    assert_eq!(sample(&edges(&[12; 15], 10)), Ok(Input::P4));
}

#[test]
fn sample_last_event_wins() {
    assert_eq!(sample(&edges(&[21, 20, 16], 5)), Ok(Input::P3));
    assert_eq!(sample(&edges(&[12, 16, 20, 21], 5)), Ok(Input::P1));
}

#[test]
fn sample_sixteen_events_are_ambiguous() {
    assert_eq!(sample(&edges(&[21; 16], 1)), Ok(Input::Ambiguous));
    let mixed: Vec<u32> = (0..16).map(|i| [21, 20, 16, 12][i % 4]).collect();
    assert_eq!(sample(&edges(&mixed, 2)), Ok(Input::Ambiguous));
}

#[test]
fn sample_cap_holds_whatever_lines_fired() {
    assert_eq!(sample(&edges(&[99; 16], 1)), Ok(Input::Ambiguous));
    assert_eq!(sample(&edges(&[21; 40], 1)), Ok(Input::Ambiguous));
}

#[test]
fn sample_fifteen_events_are_not_ambiguous() {
    assert_eq!(sample(&edges(&[20; 15], 1)), Ok(Input::P2));
}

#[test]
fn sample_no_event_is_no_signal() {
    assert_eq!(sample(&Vec::new()), Err(RemoteError::NoSignal));
}

#[test]
fn sample_late_events_do_not_count() {
    let late = vec![EdgeEvent { offset: 21, at_ms: 300 }];
    assert_eq!(sample(&late), Err(RemoteError::NoSignal));
    let events = vec![
        EdgeEvent { offset: 21, at_ms: 10 },
        EdgeEvent { offset: 20, at_ms: 299 },
        EdgeEvent { offset: 16, at_ms: 300 },
        EdgeEvent { offset: 12, at_ms: 301 },
    ];
    assert_eq!(sample(&events), Ok(Input::P2));
}

#[test]
fn sample_window_closes_at_the_first_late_event() {
    let events = vec![
        EdgeEvent { offset: 21, at_ms: 10 },
        EdgeEvent { offset: 20, at_ms: 350 },
        EdgeEvent { offset: 16, at_ms: 20 },
    ];
    assert_eq!(sample(&events), Ok(Input::P1));
}

#[test]
fn sample_cap_counts_only_events_inside_the_window() {
    let mut events = edges(&[21; 15], 1);
    for i in 0..5 {
        events.push(EdgeEvent { offset: 20, at_ms: 300 + i });
    }
    assert_eq!(sample(&events), Ok(Input::P1));
}

#[test]
fn sample_unknown_line_is_invalid_input() {
    assert_eq!(sample(&edges(&[21, 13], 1)), Err(RemoteError::InvalidInput));
    assert_eq!(sample(&edges(&[13, 21], 1)), Ok(Input::P1));
}

#[test]
fn sample_starts_afresh_each_time() {
    assert_eq!(sample(&edges(&[21; 10], 1)), Ok(Input::P1));
    assert_eq!(sample(&edges(&[20; 10], 1)), Ok(Input::P2));
    assert_eq!(sample(&Vec::new()), Err(RemoteError::NoSignal));
}

#[test]
fn sampler_waits_for_the_rest_of_the_window() {
    let pass = Sampler::new();
    assert_eq!(pass.remaining(0), Some(300));
    assert_eq!(pass.remaining(1), Some(299));
    assert_eq!(pass.remaining(299), Some(1));
    assert_eq!(pass.remaining(300), None);
    assert_eq!(pass.remaining(u64::MAX), None);
}

#[test]
fn sampler_stops_waiting_at_the_cap() {
    let mut pass = Sampler::new();
    for _ in 0..15 {
        pass.record(21);
    }
    assert_eq!(pass.remaining(10), Some(290));
    pass.record(21);
    assert_eq!(pass.remaining(10), None);
    assert_eq!(pass.finish(), Ok(Input::Ambiguous));
}

#[test]
fn sampler_finish_follows_the_events() {
    let mut pass = Sampler::new();
    assert_eq!(pass.finish(), Err(RemoteError::NoSignal));
    pass.record(16);
    assert_eq!(pass.finish(), Ok(Input::P3));
    pass.record(12);
    assert_eq!(pass.finish(), Ok(Input::P4));
    pass.record(5);
    assert_eq!(pass.finish(), Err(RemoteError::InvalidInput));
}

#[test]
fn sampler_drops_events_past_the_cap() {
    let mut pass = Sampler::new();
    for _ in 0..16 {
        pass.record(21);
    }
    let full = pass;
    pass.record(20);
    assert_eq!(pass, full);
    assert_eq!(pass.finish(), Ok(Input::Ambiguous));
}
