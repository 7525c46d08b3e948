//! The clock's hands: how far into its turn each hand stands, in seconds.
//! The turn is drawn as an angle by the window, which works in floating
//! point.

use vstd::prelude::*;

verus! {

/// The seconds hand: seconds into its sixty-second turn.
pub fn second_hand_seconds(second: u8) -> (r: u32)
    ensures
        r == second,
{
    second as u32
}

/// The minute hand: seconds into its hour-long turn.
pub fn minute_hand_seconds(minute: u8, second: u8) -> (r: u32)
    ensures
        r == minute * 60 + second,
{
    minute as u32 * 60 + second as u32
}

/// The hour hand: seconds into its twelve-hour turn, counted from the hour
/// of the day, so that afternoon hours go round a second time.
pub fn hour_hand_seconds(hour: u8, minute: u8, second: u8) -> (r: u32)
    ensures
        r == hour * 3600 + minute * 60 + second,
{
    hour as u32 * 3600 + minute as u32 * 60 + second as u32
}

} // verus!
