use demokit::stopwatch::{Span, Stopwatch, StopwatchMessage, StopwatchState};

fn at(secs: u64, nanos: u32) -> Span {
    Span { secs, nanos }
}

#[test]
fn stopwatch_counts_ticks() {
    let mut w = Stopwatch::new();
    assert_eq!(w.duration_text(), "00:00:00.00");
    w.update(StopwatchMessage::Tick(at(5, 0)));
    assert_eq!(w.duration, Span::zero(), "an idle watch ignores ticks");
    w.update(StopwatchMessage::Toggle { now: at(10, 500_000_000) });
    assert_eq!(w.state, StopwatchState::Ticking { last_tick: at(10, 500_000_000) });
    w.update(StopwatchMessage::Tick(at(11, 0)));
    w.update(StopwatchMessage::Tick(at(12, 750_000_000)));
    assert_eq!(w.duration, at(2, 250_000_000));
    w.update(StopwatchMessage::Tick(at(12, 0)));
    assert_eq!(w.duration, at(2, 250_000_000), "a tick from the past adds nothing");
    w.update(StopwatchMessage::Toggle { now: at(20, 0) });
    assert_eq!(w.state, StopwatchState::Idle);
    assert_eq!(w.duration_text(), "00:00:02.25");
    w.update(StopwatchMessage::Reset);
    assert_eq!(w.duration, Span::zero());
    assert_eq!(w.title(), "Stopwatch - Iced");
}

#[test]
fn stopwatch_display() {
    let w = Stopwatch { duration: at(3 * 3600 + 25 * 60 + 7, 129_000_000), state: StopwatchState::Idle };
    assert_eq!(w.duration_text(), "03:25:07.12");
    let w = Stopwatch { duration: at(123 * 3600, 999_999_999), state: StopwatchState::Idle };
    assert_eq!(w.duration_text(), "123:00:00.99");
}

#[test]
fn spans_add_and_subtract() {
    assert_eq!(at(1, 600_000_000).add(at(2, 500_000_000)), at(4, 100_000_000));
    assert_eq!(at(5, 100).saturating_since(at(3, 200)), at(1, 999_999_900));
    assert_eq!(at(3, 0).saturating_since(at(5, 0)), Span::zero());
}
