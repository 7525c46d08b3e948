//! The event monitor: a window that lists the last runtime events it saw,
//! while listening is switched on, and closes when asked to.

use vstd::prelude::*;

verus! {

/// How many events the monitor keeps.
pub open spec fn history_limit() -> nat {
    20
}

/// The events kept after `event` joins the list `last`: the newest at the
/// end, and the oldest dropped once there are more than the limit.
pub open spec fn after_record<E>(last: Seq<E>, event: E) -> Seq<E> {
    let pushed = last.push(event);
    if pushed.len() > history_limit() {
        pushed.drop_first()
    } else {
        pushed
    }
}

/// What the window tells the monitor. An event comes with the window that
/// asked to close, when the event is such a request.
#[derive(Debug)]
pub enum EventsMessage<E, W> {
    EventOccurred { event: E, close_request: Option<W> },
    Toogled(bool),
    Exit,
}

/// What the monitor asks of the window.
#[derive(Debug, PartialEq, Eq)]
pub enum EventsCommand<W> {
    Nothing,
    Close(W),
    CloseMain,
}

/// The monitor: the events it keeps, and whether it listens.
#[derive(Debug)]
pub struct Events<E> {
    pub last: Vec<E>,
    pub enabled: bool,
}

impl<E> Events<E> {
    /// A monitor that keeps nothing and does not listen.
    pub fn new() -> (r: Self)
        ensures
            r.last@.len() == 0,
            !r.enabled,
    {
        Events { last: Vec::new(), enabled: false }
    }

    /// The window title.
    pub fn title(&self) -> (r: String)
        ensures
            r@ == "Events - Iced"@,
    {
        String::from_str("Events - Iced")
    }

    /// While listening, an event joins the list; while not, a request to
    /// close a window closes it and other events are ignored. The checkbox
    /// switches listening, and the button closes the main window.
    pub fn update<W>(&mut self, message: EventsMessage<E, W>) -> (cmd: EventsCommand<W>)
        ensures
            old(self).last@.len() <= history_limit() ==> final(self).last@.len() <= history_limit(),
            match message {
                EventsMessage::EventOccurred { event, close_request } => if old(self).enabled {
                    &&& final(self).last@ == after_record(old(self).last@, event)
                    &&& final(self).enabled
                    &&& cmd == EventsCommand::<W>::Nothing
                } else {
                    &&& final(self).last@ == old(self).last@
                    &&& !final(self).enabled
                    &&& cmd == match close_request {
                        Some(w) => EventsCommand::Close(w),
                        None => EventsCommand::Nothing,
                    }
                },
                EventsMessage::Toogled(b) => final(self).last@ == old(self).last@
                    && final(self).enabled == b && cmd == EventsCommand::<W>::Nothing,
                EventsMessage::Exit => final(self).last@ == old(self).last@ && final(self).enabled
                    == old(self).enabled && cmd == EventsCommand::<W>::CloseMain,
            },
    {
        match message {
            EventsMessage::EventOccurred { event, close_request } => {
                if self.enabled {
                    self.last.push(event);
                    if self.last.len() > 20 {
                        let _ = self.last.remove(0);
                    }
                    proof {
                        let pushed = old(self).last@.push(event);
                        if pushed.len() > history_limit() {
                            assert(self.last@ =~= pushed.drop_first());
                        }
                    }
                    EventsCommand::Nothing
                } else {
                    match close_request {
                        Some(w) => EventsCommand::Close(w),
                        None => EventsCommand::Nothing,
                    }
                }
            },
            EventsMessage::Toogled(enabled) => {
                self.enabled = enabled;
                EventsCommand::Nothing
            },
            EventsMessage::Exit => EventsCommand::CloseMain,
        }
    }
}

/// The last `n` items of `s`, or all of it when it is shorter.
pub open spec fn last_n<E>(s: Seq<E>, n: nat) -> Seq<E> {
    if s.len() <= n {
        s
    } else {
        s.subrange(s.len() - n, s.len() as int)
    }
}

/// Law: recording an event into the last events of a history gives the last
/// events of the longer history, so the monitor always shows exactly the
/// newest events it heard, at most twenty.
pub proof fn lemma_record_keeps_newest<E>(history: Seq<E>, event: E)
    ensures
        after_record(last_n(history, history_limit()), event) == last_n(
            history.push(event),
            history_limit(),
        ),
{
    let kept = last_n(history, history_limit());
    let h2 = history.push(event);
    if history.len() <= history_limit() {
        assert(after_record(kept, event) =~= last_n(h2, history_limit()));
    } else {
        assert(after_record(kept, event) =~= last_n(h2, history_limit()));
    }
}

} // verus!
