//! The counter demo: a number that two buttons raise and lower.

use vstd::prelude::*;

verus! {

/// The value after a press of a button.
pub open spec fn counter_step(value: int, message: CounterMessage) -> int {
    match message {
        CounterMessage::IncrementPressed => value + 1,
        CounterMessage::DecrementPressed => value - 1,
    }
}

/// Law: pressing plus then minus, or minus then plus, gives back the value.
pub proof fn lemma_increment_decrement(value: int)
    ensures
        counter_step(counter_step(value, CounterMessage::IncrementPressed), CounterMessage::DecrementPressed) == value,
        counter_step(counter_step(value, CounterMessage::DecrementPressed), CounterMessage::IncrementPressed) == value,
{
}

/// What the counter's buttons send.
#[derive(Debug, Clone, Copy, PartialEq, Eq, Structural)]
pub enum CounterMessage {
    IncrementPressed,
    DecrementPressed,
}

/// The counter: its value and the text of its input field.
#[derive(Debug)]
pub struct Counter {
    pub value: i64,
    pub name: &'static str,
}

impl Counter {
    /// A counter at zero with an empty field.
    pub fn new() -> (r: Self)
        ensures
            r.value == 0,
            r.name@ == ""@,
    {
        Counter { value: 0, name: "" }
    }

    /// The window title.
    pub fn title(&self) -> (r: String)
        ensures
            r@ == "Counter - iced"@,
    {
        String::from_str("Counter - iced")
    }

    /// Raises or lowers the value by one. The value is an `i64`, stepped with
    /// `+=` and `-=`, which overflow past the type's bounds.
    pub fn update(&mut self, message: CounterMessage)
        requires
            message == CounterMessage::IncrementPressed ==> old(self).value < i64::MAX,
            message == CounterMessage::DecrementPressed ==> old(self).value > i64::MIN,
        ensures
            final(self).name == old(self).name,
            final(self).value == counter_step(old(self).value as int, message),
    {
        match message {
            CounterMessage::IncrementPressed => {
                self.value += 1;
            },
            CounterMessage::DecrementPressed => {
                self.value -= 1;
            },
        }
    }
}

} // verus!
