//! The stopwatch: time that runs while the watch ticks, and its display.

use vstd::prelude::*;
use crate::decimal::{all_digits, decimal_2, digits_value, lemma_decimal_2_reads_back, push_decimal_2};
use crate::keyboard::{Key, NamedKey};
use crate::text::same_text;

verus! {

/// Nanoseconds in a second.
pub open spec fn nanos_per_sec() -> int {
    1_000_000_000
}

/// A span of time, as `std::time::Duration` holds one: whole seconds and
/// the nanoseconds of the second under way. A point in time is the span
/// since a fixed start.
#[derive(Debug, Clone, Copy, PartialEq, Eq, Structural)]
pub struct Span {
    pub secs: u64,
    pub nanos: u32,
}

impl Span {
    /// The nanoseconds part is below one second.
    pub open spec fn wf(self) -> bool {
        self.nanos < 1_000_000_000
    }

    /// The whole span in nanoseconds.
    pub open spec fn total(self) -> int {
        self.secs * nanos_per_sec() + self.nanos
    }

    /// The empty span.
    pub fn zero() -> (r: Span)
        ensures
            r.wf(),
            r.total() == 0,
    {
        Span { secs: 0, nanos: 0 }
    }

    /// The sum of two spans. Adding durations past the range of whole
    /// seconds overflows.
    pub fn add(self, other: Span) -> (r: Span)
        requires
            self.wf(),
            other.wf(),
            self.total() + other.total() < (u64::MAX as int + 1) * nanos_per_sec(),
        ensures
            r.wf(),
            r.total() == self.total() + other.total(),
    {
        let mut nanos: u32 = self.nanos + other.nanos;
        let mut carry: u64 = 0;
        if nanos >= 1_000_000_000 {
            nanos = nanos - 1_000_000_000;
            carry = 1;
        }
        assert(self.secs + other.secs + carry <= u64::MAX) by (nonlinear_arith)
            requires
                self.secs * 1_000_000_000 + self.nanos + other.secs * 1_000_000_000 + other.nanos
                    < (u64::MAX as int + 1) * 1_000_000_000,
                self.nanos < 1_000_000_000,
                other.nanos < 1_000_000_000,
                carry == 1 ==> self.nanos + other.nanos >= 1_000_000_000,
                carry <= 1,
        ;
        Span { secs: self.secs + other.secs + carry, nanos }
    }

    /// The span from `earlier` to this point, or nothing when `earlier`
    /// is later: the difference of two instants saturates at zero.
    pub fn saturating_since(self, earlier: Span) -> (r: Span)
        requires
            self.wf(),
            earlier.wf(),
        ensures
            r.wf(),
            r.total() == if self.total() >= earlier.total() {
                self.total() - earlier.total()
            } else {
                0
            },
    {
        if self.secs < earlier.secs || (self.secs == earlier.secs && self.nanos < earlier.nanos) {
            assert(self.total() < earlier.total()) by (nonlinear_arith)
                requires
                    self.secs < earlier.secs || (self.secs == earlier.secs && self.nanos
                        < earlier.nanos),
                    self.nanos < 1_000_000_000,
                    earlier.nanos < 1_000_000_000,
            ;
            return Span::zero();
        }
        assert(self.total() >= earlier.total()) by (nonlinear_arith)
            requires
                self.secs > earlier.secs || (self.secs == earlier.secs && self.nanos
                    >= earlier.nanos),
                self.nanos < 1_000_000_000,
                earlier.nanos < 1_000_000_000,
        ;
        if self.nanos >= earlier.nanos {
            Span { secs: self.secs - earlier.secs, nanos: self.nanos - earlier.nanos }
        } else {
            Span {
                secs: self.secs - earlier.secs - 1,
                nanos: self.nanos + 1_000_000_000 - earlier.nanos,
            }
        }
    }
}

/// Whether the watch runs, and since when it last counted.
#[derive(Debug, Clone, Copy, PartialEq, Eq, Structural)]
pub enum StopwatchState {
    Idle,
    Ticking { last_tick: Span },
}

/// What the window tells the watch. A toggle comes with the time at which
/// it is handled; a tick with the time it reports.
#[derive(Debug, Clone, Copy, PartialEq, Eq, Structural)]
pub enum StopwatchMessage {
    Toggle { now: Span },
    Reset,
    Tick(Span),
}

/// The watch: the time counted, and whether it runs.
#[derive(Debug, Clone, Copy, PartialEq, Eq, Structural)]
pub struct Stopwatch {
    pub duration: Span,
    pub state: StopwatchState,
}

impl Stopwatch {
    /// The spans that the watch holds are well formed.
    pub open spec fn wf(self) -> bool {
        &&& self.duration.wf()
        &&& self.state matches StopwatchState::Ticking { last_tick } ==> last_tick.wf()
    }

    /// A stopped watch at zero.
    pub fn new() -> (r: Self)
        ensures
            r.wf(),
            r.duration.total() == 0,
            r.state == StopwatchState::Idle,
    {
        Stopwatch { duration: Span::zero(), state: StopwatchState::Idle }
    }

    /// The window title.
    pub fn title(&self) -> (r: String)
        ensures
            r@ == "Stopwatch - Iced"@,
    {
        String::from_str("Stopwatch - Iced")
    }

    /// A toggle starts a stopped watch from the time given and stops a
    /// running one; a tick of a running watch adds the time since its last
    /// count; a reset clears the time counted.
    pub fn update(&mut self, message: StopwatchMessage)
        requires
            old(self).wf(),
            message matches StopwatchMessage::Toggle { now } ==> now.wf(),
            message matches StopwatchMessage::Tick(now) ==> now.wf(),
            message matches StopwatchMessage::Tick(now) ==> (old(self).state matches StopwatchState::Ticking {
                last_tick,
            } ==> old(self).duration.total() + tick_gain(last_tick, now) < (u64::MAX as int + 1)
                * nanos_per_sec()),
        ensures
            final(self).wf(),
            match message {
                StopwatchMessage::Toggle { now } => final(self).duration == old(self).duration
                    && final(self).state == match old(self).state {
                    StopwatchState::Idle => StopwatchState::Ticking { last_tick: now },
                    StopwatchState::Ticking { .. } => StopwatchState::Idle,
                },
                StopwatchMessage::Reset => final(self).duration.total() == 0 && final(self).state
                    == old(self).state,
                StopwatchMessage::Tick(now) => match old(self).state {
                    StopwatchState::Idle => *final(self) == *old(self),
                    StopwatchState::Ticking { last_tick } => final(self).duration.total()
                        == old(self).duration.total() + tick_gain(last_tick, now)
                        && final(self).state == StopwatchState::Ticking { last_tick: now },
                },
            },
    {
        match message {
            StopwatchMessage::Toggle { now } => {
                self.state = match self.state {
                    StopwatchState::Idle => StopwatchState::Ticking { last_tick: now },
                    StopwatchState::Ticking { .. } => StopwatchState::Idle,
                };
            },
            StopwatchMessage::Tick(now) => {
                if let StopwatchState::Ticking { last_tick } = self.state {
                    let gained = now.saturating_since(last_tick);
                    self.duration = self.duration.add(gained);
                    self.state = StopwatchState::Ticking { last_tick: now };
                }
            },
            StopwatchMessage::Reset => {
                self.duration = Span::zero();
            },
        }
    }

    /// The label of the toggle button: start a stopped watch, stop a
    /// running one.
    pub fn toggle_label(&self) -> (r: &'static str)
        ensures
            r@ == (if self.state is Idle {
                "Start"@
            } else {
                "Stop"@
            }),
    {
        match self.state {
            StopwatchState::Idle => "Start",
            StopwatchState::Ticking { .. } => "Stop",
        }
    }

    /// The time counted, as `HH:MM:SS.CC`: hours, minutes, seconds and
    /// hundredths, each of at least two digits.
    pub fn duration_text(&self) -> (r: String)
        requires
            self.duration.wf(),
        ensures
            r@ == duration_text_spec(self.duration),
    {
        let seconds: u64 = self.duration.secs;
        let millis: u64 = (self.duration.nanos / 1_000_000) as u64;
        let mut s = String::new();
        push_decimal_2(&mut s, seconds / 3600);
        s.append(":");
        push_decimal_2(&mut s, (seconds % 3600) / 60);
        s.append(":");
        push_decimal_2(&mut s, seconds % 60);
        s.append(".");
        push_decimal_2(&mut s, millis / 10);
        s
    }
}

/// What a hotkey asks of the watch.
#[derive(Debug, Clone, Copy, PartialEq, Eq, Structural)]
pub enum Hotkey {
    Toggle,
    Reset,
}

/// The hotkeys of the watch: space starts and stops it, `r` resets it.
pub fn hotkey(key: &Key) -> (r: Option<Hotkey>)
    ensures
        r == match key {
            Key::Named(NamedKey::Space) => Some(Hotkey::Toggle),
            Key::Character(c) => if c@ == "r"@ {
                Some(Hotkey::Reset)
            } else {
                None
            },
            _ => None::<Hotkey>,
        },
{
    match key {
        Key::Named(NamedKey::Space) => Some(Hotkey::Toggle),
        Key::Character(c) => {
            if same_text(c.as_str(), "r") {
                Some(Hotkey::Reset)
            } else {
                None
            }
        },
        _ => None,
    }
}

/// The time that a tick at `now` adds to a watch that last counted at
/// `last_tick`: the time between them, or nothing if `now` is earlier.
pub open spec fn tick_gain(last_tick: Span, now: Span) -> int {
    if now.total() >= last_tick.total() {
        now.total() - last_tick.total()
    } else {
        0
    }
}

/// The display of a span: `HH:MM:SS.CC`.
pub open spec fn duration_text_spec(d: Span) -> Seq<char> {
    decimal_2((d.secs / 3600) as nat) + ":"@ + decimal_2(((d.secs % 3600) / 60) as nat) + ":"@
        + decimal_2((d.secs % 60) as nat) + "."@ + decimal_2((d.nanos / 10_000_000) as nat)
}

/// Law: ticks that arrive in order add up to the time from the first
/// count to the last tick, however often they come, so the watch measures
/// elapsed time and not the number of ticks.
pub proof fn lemma_ticks_telescope(t0: Span, t1: Span, t2: Span)
    requires
        t0.total() <= t1.total() <= t2.total(),
    ensures
        tick_gain(t0, t1) + tick_gain(t1, t2) == tick_gain(t0, t2),
{
}

/// Law: the display splits the whole seconds exactly into hours, minutes
/// and seconds.
pub proof fn lemma_display_fields(secs: u64)
    ensures
        (secs / 3600) * 3600 + ((secs % 3600) / 60) * 60 + secs % 60 == secs,
        (secs % 3600) / 60 < 60,
        secs % 60 < 60,
{
}

/// The number that the characters of `t` from `a` to `b` spell.
pub open spec fn field_value(t: Seq<char>, a: int, b: int) -> nat {
    digits_value(t.subrange(a, b))
}

/// Law: the display of a span reads back to it. It ends in `:MM:SS.CC`,
/// after the hours; every field is made of digits; minutes and seconds are
/// below sixty; hours, minutes and seconds add up to the span's whole
/// seconds; and the hundredths are those of its nanoseconds.
pub proof fn lemma_duration_text_reads_back(d: Span)
    requires
        d.wf(),
    ensures
        ({
            let t = duration_text_spec(d);
            let n = t.len() as int;
            &&& n >= 11
            &&& t[n - 9] == ':' && t[n - 6] == ':' && t[n - 3] == '.'
            &&& all_digits(t.subrange(0, n - 9))
            &&& all_digits(t.subrange(n - 8, n - 6))
            &&& all_digits(t.subrange(n - 5, n - 3))
            &&& all_digits(t.subrange(n - 2, n))
            &&& field_value(t, n - 8, n - 6) < 60
            &&& field_value(t, n - 5, n - 3) < 60
            &&& field_value(t, 0, n - 9) * 3600 + field_value(t, n - 8, n - 6) * 60 + field_value(
                t,
                n - 5,
                n - 3,
            ) == d.secs
            &&& field_value(t, n - 2, n) * 10_000_000 <= d.nanos
            &&& d.nanos < (field_value(t, n - 2, n) + 1) * 10_000_000
        }),
{
    let h = (d.secs / 3600) as nat;
    let m = ((d.secs % 3600) / 60) as nat;
    let sec = (d.secs % 60) as nat;
    let c = (d.nanos / 10_000_000) as nat;
    lemma_display_fields(d.secs);
    lemma_decimal_2_reads_back(h);
    lemma_decimal_2_reads_back(m);
    lemma_decimal_2_reads_back(sec);
    lemma_decimal_2_reads_back(c);
    let a = decimal_2(h);
    let b = decimal_2(m);
    let e = decimal_2(sec);
    let f = decimal_2(c);
    reveal_strlit(":");
    reveal_strlit(".");
    let t = duration_text_spec(d);
    assert(t =~= a + seq![':'] + b + seq![':'] + e + seq!['.'] + f);
    let n = t.len() as int;
    assert(n == a.len() + 9);
    assert(t.subrange(0, n - 9) =~= a);
    assert(t.subrange(n - 8, n - 6) =~= b);
    assert(t.subrange(n - 5, n - 3) =~= e);
    assert(t.subrange(n - 2, n) =~= f);
    assert(c * 10_000_000 <= d.nanos < (c + 1) * 10_000_000);
}

} // verus!
