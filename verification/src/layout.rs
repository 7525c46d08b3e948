//! The layout gallery: which example is shown, stepping through the list of
//! examples, and the state of the gallery window.

use vstd::prelude::*;
use crate::keyboard::{Key, NamedKey};

verus! {

/// One example of the gallery, in the order of the gallery's list.
#[derive(Debug, Clone, Copy, PartialEq, Eq, Structural)]
pub enum Example {
    Centered,
    Column,
    Row,
    Space,
    Application,
    NestedQuotes,
}

/// How many examples the gallery lists.
pub open spec fn example_count() -> nat {
    6
}

/// The place of an example in the gallery's list.
pub open spec fn position(e: Example) -> nat {
    match e {
        Example::Centered => 0,
        Example::Column => 1,
        Example::Row => 2,
        Example::Space => 3,
        Example::Application => 4,
        Example::NestedQuotes => 5,
    }
}

/// The example at a place of the list.
pub open spec fn example_at(i: nat) -> Example {
    if i == 0 {
        Example::Centered
    } else if i == 1 {
        Example::Column
    } else if i == 2 {
        Example::Row
    } else if i == 3 {
        Example::Space
    } else if i == 4 {
        Example::Application
    } else {
        Example::NestedQuotes
    }
}

/// The title of an example.
pub open spec fn example_title(e: Example) -> Seq<char> {
    match e {
        Example::Centered => "Centered"@,
        Example::Column => "Column"@,
        Example::Row => "Row"@,
        Example::Space => "Space"@,
        Example::Application => "Application"@,
        Example::NestedQuotes => "Nested Quotes"@,
    }
}

impl Example {
    /// The examples in the order the gallery steps through them.
    pub fn list() -> (r: Vec<Example>)
        ensures
            r@.len() == example_count(),
            forall|i: int| 0 <= i < r@.len() ==> r@[i] == example_at(i as nat),
    {
        vec![
            Example::Centered,
            Example::Column,
            Example::Row,
            Example::Space,
            Example::Application,
            Example::NestedQuotes,
        ]
    }

    /// The title shown above the example.
    pub fn title(self) -> (r: &'static str)
        ensures
            r@ == example_title(self),
    {
        match self {
            Example::Centered => "Centered",
            Example::Column => "Column",
            Example::Row => "Row",
            Example::Space => "Space",
            Example::Application => "Application",
            Example::NestedQuotes => "Nested Quotes",
        }
    }

    fn index(self) -> (r: usize)
        ensures
            r == position(self),
    {
        match self {
            Example::Centered => 0,
            Example::Column => 1,
            Example::Row => 2,
            Example::Space => 3,
            Example::Application => 4,
            Example::NestedQuotes => 5,
        }
    }

    fn at(i: usize) -> (r: Example)
        requires
            i < example_count(),
        ensures
            r == example_at(i as nat),
    {
        if i == 0 {
            Example::Centered
        } else if i == 1 {
            Example::Column
        } else if i == 2 {
            Example::Row
        } else if i == 3 {
            Example::Space
        } else if i == 4 {
            Example::Application
        } else {
            Example::NestedQuotes
        }
    }

    /// Whether this is the first example of the list.
    pub fn is_first(self) -> (r: bool)
        ensures
            r == (position(self) == 0),
    {
        self.index() == 0
    }

    /// Whether this is the last example of the list.
    pub fn is_last(self) -> (r: bool)
        ensures
            r == (position(self) + 1 == example_count()),
    {
        self.index() + 1 == 6
    }

    /// The example before this one; the first example has none and stays.
    pub fn previous(self) -> (r: Example)
        ensures
            r == previous_of(self),
    {
        let i: usize = self.index();
        Example::at(i.saturating_sub(1))
    }

    /// The example after this one; the last example has none and stays.
    pub fn next(self) -> (r: Example)
        ensures
            r == next_of(self),
    {
        let i: usize = self.index();
        if i + 1 < 6 {
            Example::at(i + 1)
        } else {
            self
        }
    }
}

impl Default for Example {
    fn default() -> (r: Self)
        ensures
            r == example_at(0),
    {
        Example::Centered
    }
}

/// Law: stepping back from an example that is not the first, then forward,
/// returns to it; stepping forward from one that is not the last, then
/// back, returns to it; the first and last examples stay where they are.
pub proof fn lemma_previous_next_inverse(e: Example)
    ensures
        position(e) != 0 ==> next_of(previous_of(e)) == e,
        position(e) + 1 != example_count() ==> previous_of(next_of(e)) == e,
        position(e) == 0 ==> previous_of(e) == e,
        position(e) + 1 == example_count() ==> next_of(e) == e,
{
}

/// What `Example::previous` gives.
pub open spec fn previous_of(e: Example) -> Example {
    example_at(if position(e) == 0 {
        0
    } else {
        (position(e) - 1) as nat
    })
}

/// What `Example::next` gives.
pub open spec fn next_of(e: Example) -> Example {
    if position(e) + 1 < example_count() {
        example_at(position(e) + 1)
    } else {
        e
    }
}

/// What the gallery window tells the gallery; `T` is the window's theme.
#[derive(Debug)]
pub enum LayoutMessage<T> {
    Next,
    Previous,
    ExpalinToggled(bool),
    ThemeSlected(T),
}

/// The message of a key press: the left arrow steps back, the right arrow
/// steps forward.
pub fn key_message<T>(key: &Key) -> (r: Option<LayoutMessage<T>>)
    ensures
        match key {
            Key::Named(NamedKey::ArrowLeft) => r matches Some(LayoutMessage::Previous),
            Key::Named(NamedKey::ArrowRight) => r matches Some(LayoutMessage::Next),
            _ => r is None,
        },
{
    match key {
        Key::Named(NamedKey::ArrowLeft) => Some(LayoutMessage::Previous),
        Key::Named(NamedKey::ArrowRight) => Some(LayoutMessage::Next),
        _ => None,
    }
}

/// The gallery: the example shown, whether layout is explained, the theme.
#[derive(Debug)]
pub struct Layout<T> {
    pub example: Example,
    pub explain: bool,
    pub theme: T,
}

impl<T> Layout<T> {
    /// The gallery at its first example, unexplained, in `theme`.
    pub fn new(theme: T) -> (r: Self)
        ensures
            r.example == example_at(0),
            !r.explain,
            r.theme == theme,
    {
        Layout { example: Example::default(), explain: false, theme }
    }

    /// The window title: the example's title and ` - Layout - Iced`.
    pub fn title(&self) -> (r: String)
        ensures
            r@ == example_title(self.example) + " - Layout - Iced"@,
    {
        let mut s = String::from_str(self.example.title());
        s.append(" - Layout - Iced");
        s
    }

    /// Handles one message of the window.
    pub fn update(&mut self, message: LayoutMessage<T>)
        ensures
            match message {
                LayoutMessage::Next => *final(self) == Layout {
                    example: next_of(old(self).example),
                    ..*old(self)
                },
                LayoutMessage::Previous => *final(self) == Layout {
                    example: previous_of(old(self).example),
                    ..*old(self)
                },
                LayoutMessage::ExpalinToggled(b) => *final(self) == Layout { explain: b, ..*old(self) },
                LayoutMessage::ThemeSlected(t) => *final(self) == Layout { theme: t, ..*old(self) },
            },
    {
        match message {
            LayoutMessage::Next => {
                self.example = self.example.next();
            },
            LayoutMessage::Previous => {
                self.example = self.example.previous();
            },
            LayoutMessage::ExpalinToggled(explain) => {
                self.explain = explain;
            },
            LayoutMessage::ThemeSlected(theme) => {
                self.theme = theme;
            },
        }
    }
}

} // verus!
