//! The shared dark-mode switch: a checkbox whose state all components read,
//! and the style of the label that shows it.

use vstd::prelude::*;
use crate::text::same_text;

verus! {

/// The state that the components share: whether dark mode is on.
#[derive(Debug, Clone, Copy, PartialEq, Eq, Structural)]
pub struct DarkMode(pub bool);

impl DarkMode {
    /// Dark mode starts off.
    pub fn new() -> (r: Self)
        ensures
            !r.0,
    {
        DarkMode(false)
    }

    /// Takes in the value of the checkbox's input event: dark mode is on
    /// exactly when the value is `true`.
    pub fn set_from_input(&mut self, value: &str)
        ensures
            final(self).0 == (value@ == "true"@),
    {
        self.0 = same_text(value, "true");
    }

    /// The style of the label: light text on black in dark mode; a black
    /// border otherwise.
    pub fn label_style(&self) -> (r: &'static str)
        ensures
            r@ == (if self.0 {
                "\n        color: white; \n        background-color: black;\n        padding: 10px; margin: 10px\n        "@
            } else {
                "\n        padding: 10px; margin: 10px\n        border: 1px solid black;\n        "@
            }),
    {
        if self.0 {
            "\n        color: white; \n        background-color: black;\n        padding: 10px; margin: 10px\n        "
        } else {
            "\n        padding: 10px; margin: 10px\n        border: 1px solid black;\n        "
        }
    }
}

} // verus!
