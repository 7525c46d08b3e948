//! The numeric-input component: a text field between a minus and a plus
//! button, that reports the number it holds to its owner.

use vstd::prelude::*;
use crate::decimal::{decimal, lemma_parse_of_decimal, parse_u32, parse_u32_spec, u64_to_string};

verus! {

/// What the component's own widgets tell it.
#[derive(Debug)]
pub enum Event {
    InputChanged(String),
    IncrementPressed,
    DecrementPressed,
}

/// The value that the component reports for an event, or `None` when it
/// reports nothing: the buttons step the value (taken as zero when there is
/// none) by one without leaving the `u32` range; an emptied field reports no
/// value; other text reports the number it spells, and nothing when it
/// spells none.
pub open spec fn reported_value_spec(value: Option<u32>, event: Event) -> Option<Option<u32>> {
    let v: u32 = match value {
        Some(v) => v,
        None => 0,
    };
    match event {
        Event::IncrementPressed => Some(Some(if v == u32::MAX { v } else { (v + 1) as u32 })),
        Event::DecrementPressed => Some(Some(if v == 0 { v } else { (v - 1) as u32 })),
        Event::InputChanged(s) => if s@.len() == 0 {
            Some(None)
        } else {
            match parse_u32_spec(s@) {
                Some(n) => Some(Some(n)),
                None => None,
            }
        },
    }
}

/// The value that the component hands to its change handler for `event`,
/// or `None` when the handler is not called.
pub fn reported_value(value: Option<u32>, event: Event) -> (r: Option<Option<u32>>)
    ensures
        r == reported_value_spec(value, event),
{
    let v: u32 = match value {
        Some(v) => v,
        None => 0,
    };
    match event {
        Event::IncrementPressed => Some(Some(v.saturating_add(1))),
        Event::DecrementPressed => Some(Some(v.saturating_sub(1))),
        Event::InputChanged(text) => {
            if text.as_str().is_empty() {
                Some(None)
            } else {
                match parse_u32(text.as_str()) {
                    Some(n) => Some(Some(n)),
                    None => None,
                }
            }
        },
    }
}

/// The text that the field shows: the value in decimal, or nothing.
pub fn input_text(value: Option<u32>) -> (r: String)
    ensures
        r@ == match value {
            Some(v) => decimal(v as nat),
            None => Seq::<char>::empty(),
        },
{
    match value {
        Some(v) => u64_to_string(v as u64),
        None => String::new(),
    }
}

/// Law: the text that the field shows for a value reads back as that
/// value, so typing over it with the same text changes nothing.
pub proof fn lemma_input_text_round_trip(v: u32, text: String)
    requires
        text@ == decimal(v as nat),
    ensures
        reported_value_spec(None, Event::InputChanged(text)) == Some(Some(v)),
{
    lemma_parse_of_decimal(v);
    crate::decimal::lemma_decimal_digits(v as nat);
}

/// What the component's owner hears from it.
#[derive(Debug, Clone, Copy, PartialEq, Eq, Structural)]
pub enum ComponentMessage {
    NumericInputChanged(Option<u32>),
}

/// The owner of the component: the value it keeps.
#[derive(Debug, Clone, Copy, PartialEq, Eq, Structural)]
pub struct ComponentExample {
    pub value: Option<u32>,
}

impl ComponentExample {
    /// No value yet.
    pub fn new() -> (r: Self)
        ensures
            r.value is None,
    {
        ComponentExample { value: None }
    }

    /// The window title.
    pub fn title(&self) -> (r: String)
        ensures
            r@ == "Component - Iced"@,
    {
        String::from_str("Component - Iced")
    }

    /// Keeps the value that the component reported.
    pub fn update(&mut self, message: ComponentMessage)
        ensures
            match message {
                ComponentMessage::NumericInputChanged(v) => final(self).value == v,
            },
    {
        match message {
            ComponentMessage::NumericInputChanged(value) => {
                self.value = value;
            },
        }
    }
}

} // verus!
