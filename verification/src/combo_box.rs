//! The combo-box demo: pick a language, and read hello in it.

use vstd::prelude::*;

verus! {

/// A language that the combo box offers.
#[derive(Debug, Clone, Copy, PartialEq, Eq, Structural)]
pub enum Language {
    Danish,
    English,
    French,
    German,
    Italian,
    Portuguese,
    Spanish,
    Other,
}

/// How to say hello in a language.
pub open spec fn hello_text(l: Language) -> Seq<char> {
    match l {
        Language::Danish => "Halloy!"@,
        Language::English => "Hello!"@,
        Language::French => "Salut!"@,
        Language::German => "Hallo!"@,
        Language::Italian => "Ciao!"@,
        Language::Portuguese => "Olá!"@,
        Language::Spanish => "¡Hola!"@,
        Language::Other => "... hello?"@,
    }
}

/// The name under which the combo box lists a language.
pub open spec fn language_name(l: Language) -> Seq<char> {
    match l {
        Language::Danish => "Danish"@,
        Language::English => "English"@,
        Language::French => "French"@,
        Language::German => "German"@,
        Language::Italian => "Italian"@,
        Language::Portuguese => "Portuguese"@,
        Language::Spanish => "Spanish"@,
        Language::Other => "Some other language"@,
    }
}

impl Default for Language {
    fn default() -> (r: Self)
        ensures
            r == Language::English,
    {
        Language::English
    }
}

impl Language {
    /// Every language, in the order the combo box lists them.
    pub fn all() -> (r: Vec<Language>)
        ensures
            r@ == seq![
                Language::Danish,
                Language::English,
                Language::French,
                Language::German,
                Language::Italian,
                Language::Portuguese,
                Language::Spanish,
                Language::Other,
            ],
    {
        vec![
            Language::Danish,
            Language::English,
            Language::French,
            Language::German,
            Language::Italian,
            Language::Portuguese,
            Language::Spanish,
            Language::Other,
        ]
    }

    /// Hello, in this language.
    pub fn hello(&self) -> (r: &'static str)
        ensures
            r@ == hello_text(*self),
    {
        match self {
            Language::Danish => "Halloy!",
            Language::English => "Hello!",
            Language::French => "Salut!",
            Language::German => "Hallo!",
            Language::Italian => "Ciao!",
            Language::Portuguese => "Olá!",
            Language::Spanish => "¡Hola!",
            Language::Other => "... hello?",
        }
    }

    /// The language's name, as the combo box shows it.
    pub fn to_string(&self) -> (r: String)
        ensures
            r@ == language_name(*self),
    {
        let name = match self {
            Language::Danish => "Danish",
            Language::English => "English",
            Language::French => "French",
            Language::German => "German",
            Language::Italian => "Italian",
            Language::Portuguese => "Portuguese",
            Language::Spanish => "Spanish",
            Language::Other => "Some other language",
        };
        String::from_str(name)
    }
}

/// What the combo box tells the demo.
#[derive(Debug, Clone, Copy, PartialEq, Eq, Structural)]
pub enum ComboMessage {
    Selected(Language),
    OptionHoverd(Language),
    Closed,
}

/// The demo: the languages offered, the one chosen, the greeting shown.
#[derive(Debug)]
pub struct ComboBoxExample {
    pub languages: Vec<Language>,
    pub selected_language: Option<Language>,
    pub text: String,
}

impl ComboBoxExample {
    /// The demo before any choice: every language offered, none chosen,
    /// no greeting.
    pub fn new() -> (r: Self)
        ensures
            r.languages@.len() == 8,
            r.selected_language is None,
            r.text@ == Seq::<char>::empty(),
    {
        ComboBoxExample { languages: Language::all(), selected_language: None, text: String::new() }
    }

    /// The window title.
    pub fn title(&self) -> (r: String)
        ensures
            r@ == "Combox_box - Iced"@,
    {
        String::from_str("Combox_box - Iced")
    }

    /// Choosing a language keeps it and greets in it; hovering an option
    /// greets in that option; closing the list greets in the chosen
    /// language, or shows nothing when none is chosen.
    pub fn update(&mut self, message: ComboMessage)
        ensures
            final(self).languages == old(self).languages,
            match message {
                ComboMessage::Selected(l) => final(self).selected_language == Some(l)
                    && final(self).text@ == hello_text(l),
                ComboMessage::OptionHoverd(l) => final(self).selected_language
                    == old(self).selected_language && final(self).text@ == hello_text(l),
                ComboMessage::Closed => final(self).selected_language
                    == old(self).selected_language && final(self).text@ == match old(
                    self,
                ).selected_language {
                    Some(l) => hello_text(l),
                    None => Seq::<char>::empty(),
                },
            },
    {
        match message {
            ComboMessage::Selected(language) => {
                self.selected_language = Some(language);
                self.text = String::from_str(language.hello());
            },
            ComboMessage::OptionHoverd(language) => {
                self.text = String::from_str(language.hello());
            },
            ComboMessage::Closed => {
                self.text = match self.selected_language {
                    Some(language) => String::from_str(language.hello()),
                    None => String::new(),
                };
            },
        }
    }
}

/// Law: each language has its own greeting: no two languages say hello
/// alike.
pub proof fn lemma_greetings_differ(a: Language, b: Language)
    requires
        hello_text(a) == hello_text(b),
    ensures
        a == b,
{
    reveal_strlit("Halloy!");
    reveal_strlit("Hello!");
    reveal_strlit("Salut!");
    reveal_strlit("Hallo!");
    reveal_strlit("Ciao!");
    reveal_strlit("Olá!");
    reveal_strlit("¡Hola!");
    reveal_strlit("... hello?");
    assert(hello_text(Language::Danish).len() == 7);
    assert(hello_text(Language::English).len() == 6 && hello_text(Language::English)[1] == 'e');
    assert(hello_text(Language::French).len() == 6 && hello_text(Language::French)[0] == 'S');
    assert(hello_text(Language::German).len() == 6 && hello_text(Language::German)[0] == 'H'
        && hello_text(Language::German)[1] == 'a');
    assert(hello_text(Language::Italian).len() == 5);
    assert(hello_text(Language::Portuguese).len() == 4);
    assert(hello_text(Language::Spanish).len() == 6 && hello_text(Language::Spanish)[0] == '¡');
    assert(hello_text(Language::Other).len() == 10);
}

} // verus!
