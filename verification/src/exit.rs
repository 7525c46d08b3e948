//! The exit demo: a button that asks for confirmation before it closes the
//! window.

use vstd::prelude::*;

verus! {

/// What the window tells the demo.
#[derive(Debug, Clone, Copy, PartialEq, Eq, Structural)]
pub enum ExitMessage {
    Confirm,
    Exit,
}

/// What the demo asks of the window.
#[derive(Debug, Clone, Copy, PartialEq, Eq, Structural)]
pub enum ExitCommand {
    Nothing,
    CloseMainWindow,
}

/// The demo: whether it is asking for confirmation.
#[derive(Debug, Clone, Copy, PartialEq, Eq, Structural)]
pub struct Exit {
    pub show_confirm: bool,
}

impl Exit {
    /// The demo before any click.
    pub fn new() -> (r: Self)
        ensures
            !r.show_confirm,
    {
        Exit { show_confirm: false }
    }

    /// The window title.
    pub fn title(&self) -> (r: String)
        ensures
            r@ == "Exit = Iced"@,
    {
        String::from_str("Exit = Iced")
    }

    /// The first click asks for confirmation; the confirming click closes
    /// the main window.
    pub fn update(&mut self, message: ExitMessage) -> (cmd: ExitCommand)
        ensures
            message == ExitMessage::Confirm ==> cmd == ExitCommand::CloseMainWindow && *final(self)
                == *old(self),
            message == ExitMessage::Exit ==> cmd == ExitCommand::Nothing && final(self).show_confirm,
    {
        match message {
            ExitMessage::Confirm => ExitCommand::CloseMainWindow,
            ExitMessage::Exit => {
                self.show_confirm = true;
                ExitCommand::Nothing
            },
        }
    }

    /// The prompt, the button's label and the message that the button sends.
    pub fn controls(&self) -> (r: (&'static str, &'static str, ExitMessage))
        ensures
            self.show_confirm ==> r.0@ == "Are you sure you want exit?"@ && r.1@
                == "Yes, exit now!"@ && r.2 == ExitMessage::Confirm,
            !self.show_confirm ==> r.0@ == "Click the button to exit"@ && r.1@ == "Exit"@ && r.2
                == ExitMessage::Exit,
    {
        if self.show_confirm {
            ("Are you sure you want exit?", "Yes, exit now!", ExitMessage::Confirm)
        } else {
            ("Click the button to exit", "Exit", ExitMessage::Exit)
        }
    }
}

} // verus!
