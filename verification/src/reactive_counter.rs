//! The reactive counter page: a count that a button raises, and the
//! attributes of the page that follow it.

use vstd::prelude::*;
use crate::decimal::{push_signed_decimal, signed_decimal};

verus! {

/// The page's signal: the count of clicks.
#[derive(Debug, Clone, Copy, PartialEq, Eq, Structural)]
pub struct ReactiveCounter {
    pub count: i32,
}

impl ReactiveCounter {
    /// The count starts at zero.
    pub fn new() -> (r: Self)
        ensures
            r.count == 0,
    {
        ReactiveCounter { count: 0 }
    }

    /// A click raises the count by one; the `i32` count overflows past its
    /// maximum.
    pub fn click(&mut self)
        requires
            old(self).count < i32::MAX,
        ensures
            final(self).count == old(self).count + 1,
    {
        self.count += 1;
    }

    /// Whether the button is red: when the count's remainder by two is one,
    /// so for odd positive counts.
    pub fn is_red(&self) -> (r: bool)
        ensures
            r == (self.count > 0 && self.count % 2 == 1),
    {
        self.count % 2 == 1
    }

    /// The value that the page calls the double count: the count itself.
    pub fn double_count(&self) -> (r: i32)
        ensures
            r == self.count,
    {
        self.count
    }

    /// The left offset of the moving paragraph: the count plus one hundred,
    /// in pixels.
    pub fn left_style(&self) -> (r: String)
        requires
            self.count <= i32::MAX - 100,
        ensures
            r@ == signed_decimal(self.count + 100) + "px"@,
    {
        let mut s = String::new();
        push_signed_decimal(&mut s, (self.count + 100) as i64);
        s.append("px");
        s
    }

    /// The background of the moving paragraph: red and green from the count.
    pub fn background_style(&self) -> (r: String)
        ensures
            r@ == "rgb("@ + signed_decimal(self.count as int) + ", "@ + signed_decimal(100)
                + ", 100)"@,
    {
        let mut s = String::from_str("rgb(");
        push_signed_decimal(&mut s, self.count as i64);
        s.append(", ");
        push_signed_decimal(&mut s, 100);
        s.append(", 100)");
        s
    }
}

} // verus!
