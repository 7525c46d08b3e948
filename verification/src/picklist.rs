//! The pick-list demo: choose a favourite programming language.

use vstd::prelude::*;

verus! {

/// A language of the pick list.
#[derive(Debug, Clone, Copy, PartialEq, Eq, Structural)]
pub enum Language {
    Rust,
    Elm,
    Ruby,
    Haskell,
    C,
    Javascript,
    Other,
}

/// The name under which the pick list shows a language.
pub open spec fn language_name(l: Language) -> Seq<char> {
    match l {
        Language::Rust => "Rust"@,
        Language::Elm => "Elm"@,
        Language::Ruby => "Ruby"@,
        Language::Haskell => "Haskell"@,
        Language::C => "C"@,
        Language::Javascript => "Javascript"@,
        Language::Other => "Some other language"@,
    }
}

impl Default for Language {
    fn default() -> (r: Self)
        ensures
            r == Language::Rust,
    {
        Language::Rust
    }
}

impl Language {
    /// Every language, in the order the pick list shows them.
    pub fn all() -> (r: Vec<Language>)
        ensures
            r@ == seq![
                Language::C,
                Language::Elm,
                Language::Ruby,
                Language::Haskell,
                Language::Rust,
                Language::Javascript,
                Language::Other,
            ],
    {
        vec![
            Language::C,
            Language::Elm,
            Language::Ruby,
            Language::Haskell,
            Language::Rust,
            Language::Javascript,
            Language::Other,
        ]
    }

    /// The language's name, as the pick list shows it.
    pub fn to_string(&self) -> (r: String)
        ensures
            r@ == language_name(*self),
    {
        let name = match self {
            Language::Rust => "Rust",
            Language::Elm => "Elm",
            Language::Ruby => "Ruby",
            Language::Haskell => "Haskell",
            Language::C => "C",
            Language::Javascript => "Javascript",
            Language::Other => "Some other language",
        };
        String::from_str(name)
    }
}

/// What the pick list tells the demo.
#[derive(Debug, Clone, Copy, PartialEq, Eq, Structural)]
pub enum PickMessage {
    LanguageSelected(Language),
}

/// The demo: the chosen language, if any.
#[derive(Debug, Clone, Copy, PartialEq, Eq, Structural)]
pub struct PickListExample {
    pub selected_language: Option<Language>,
}

impl PickListExample {
    /// The demo before any choice.
    pub fn new() -> (r: Self)
        ensures
            r.selected_language is None,
    {
        PickListExample { selected_language: None }
    }

    /// The window title.
    pub fn title(&self) -> (r: String)
        ensures
            r@ == "Picklist - Iced"@,
    {
        String::from_str("Picklist - Iced")
    }

    /// Keeps the chosen language.
    pub fn update(&mut self, message: PickMessage)
        ensures
            match message {
                PickMessage::LanguageSelected(l) => final(self).selected_language == Some(l),
            },
    {
        match message {
            PickMessage::LanguageSelected(language) => {
                self.selected_language = Some(language);
            },
        }
    }

    /// The line beside the list: the chosen language, or Rust, the default,
    /// before any choice.
    pub fn favourite_text(&self) -> (r: String)
        ensures
            r@ == "  Favourate:"@ + language_name(
                match self.selected_language {
                    Some(l) => l,
                    None => Language::Rust,
                },
            ),
    {
        let language = match self.selected_language {
            Some(l) => l,
            None => Language::default(),
        };
        let mut s = String::from_str("  Favourate:");
        let name = language.to_string();
        s.append(name.as_str());
        s
    }
}

} // verus!
