//! The tooltip demo: a button whose tooltip moves round its sides.

use vstd::prelude::*;

verus! {

/// Where a tooltip opens, relative to the widget it describes.
#[derive(Debug, Clone, Copy, PartialEq, Eq, Structural)]
pub enum Position {
    FollowCursor,
    Top,
    Bottom,
    Left,
    Right,
}

/// The place after `p` in the cycle follow-cursor, top, bottom, left, right.
pub open spec fn next_position_spec(p: Position) -> Position {
    match p {
        Position::FollowCursor => Position::Top,
        Position::Top => Position::Bottom,
        Position::Bottom => Position::Left,
        Position::Left => Position::Right,
        Position::Right => Position::FollowCursor,
    }
}

/// The text of the tooltip: the name of its place.
pub fn position_to_text(position: Position) -> (r: &'static str)
    ensures
        r@ == match position {
            Position::FollowCursor => "Follow Cursor"@,
            Position::Top => "Top"@,
            Position::Bottom => "Botton"@,
            Position::Left => "Left"@,
            Position::Right => "Right"@,
        },
{
    match position {
        Position::FollowCursor => "Follow Cursor",
        Position::Top => "Top",
        Position::Bottom => "Botton",
        Position::Left => "Left",
        Position::Right => "Right",
    }
}

/// What the window tells the demo.
#[derive(Debug, Clone, Copy, PartialEq, Eq, Structural)]
pub enum TooltipMessage {
    ChangePosition,
}

/// The demo: the tooltip's current place.
#[derive(Debug)]
pub struct TooltipExample {
    pub position: Position,
}

impl TooltipExample {
    /// The demo starts with the tooltip below the button.
    pub fn new() -> (r: Self)
        ensures
            r.position == Position::Bottom,
    {
        TooltipExample { position: Position::Bottom }
    }

    /// The window title.
    pub fn title(&self) -> (r: String)
        ensures
            r@ == "Tooltip - Iced"@,
    {
        String::from_str("Tooltip - Iced")
    }

    /// Moves the tooltip to the next place of the cycle.
    pub fn update(&mut self, message: TooltipMessage)
        ensures
            final(self).position == next_position_spec(old(self).position),
    {
        match message {
            TooltipMessage::ChangePosition => {
                self.position = match self.position {
                    Position::FollowCursor => Position::Top,
                    Position::Top => Position::Bottom,
                    Position::Bottom => Position::Left,
                    Position::Left => Position::Right,
                    Position::Right => Position::FollowCursor,
                };
            },
        }
    }
}

/// Law: five clicks bring the tooltip back where it was, and no fewer do.
pub proof fn lemma_position_cycle(p: Position)
    ensures
        next_position_spec(next_position_spec(next_position_spec(next_position_spec(
            next_position_spec(p),
        )))) == p,
        next_position_spec(p) != p,
        next_position_spec(next_position_spec(p)) != p,
        next_position_spec(next_position_spec(next_position_spec(p))) != p,
        next_position_spec(next_position_spec(next_position_spec(next_position_spec(p)))) != p,
{
}

} // verus!
