use vstd::prelude::*;

verus! {

/// Distances inward from the four edges of a rectangle (padding, margins).
#[derive(Clone, Copy, Debug, Default, PartialEq, Eq, Hash, Structural)]
pub struct Insets {
    pub top: i32,
    pub right: i32,
    pub bottom: i32,
    pub left: i32,
}

/// Insets used as the space around a widget's edges.
pub type EdgeInsets = Insets;

/// Insets used as inner spacing.
pub type Padding = Insets;

/// Insets used as outer spacing.
pub type Margin = Insets;

impl Insets {
    pub fn new(top: i32, right: i32, bottom: i32, left: i32) -> (r: Insets)
        ensures
            r == (Insets { top, right, bottom, left }),
    {
        Insets { top, right, bottom, left }
    }

    /// No inset on any side.
    #[allow(non_snake_case)]
    pub fn ZERO() -> (r: Insets)
        ensures
            r == (Insets { top: 0, right: 0, bottom: 0, left: 0 }),
    {
        Insets { top: 0, right: 0, bottom: 0, left: 0 }
    }

    /// The same inset on all four sides.
    pub fn uniform(value: i32) -> (r: Insets)
        ensures
            r == (Insets { top: value, right: value, bottom: value, left: value }),
    {
        Insets { top: value, right: value, bottom: value, left: value }
    }

    /// `vertical` on top and bottom, `horizontal` on left and right.
    pub fn symmetric(vertical: i32, horizontal: i32) -> (r: Insets)
        ensures
            r == (Insets { top: vertical, right: horizontal, bottom: vertical, left: horizontal }),
    {
        Insets { top: vertical, right: horizontal, bottom: vertical, left: horizontal }
    }

    pub fn only_top(top: i32) -> (r: Insets)
        ensures
            r == (Insets { top, right: 0, bottom: 0, left: 0 }),
    {
        Insets { top, right: 0, bottom: 0, left: 0 }
    }

    pub fn only_right(right: i32) -> (r: Insets)
        ensures
            r == (Insets { top: 0, right, bottom: 0, left: 0 }),
    {
        Insets { top: 0, right, bottom: 0, left: 0 }
    }

    pub fn only_bottom(bottom: i32) -> (r: Insets)
        ensures
            r == (Insets { top: 0, right: 0, bottom, left: 0 }),
    {
        Insets { top: 0, right: 0, bottom, left: 0 }
    }

    pub fn only_left(left: i32) -> (r: Insets)
        ensures
            r == (Insets { top: 0, right: 0, bottom: 0, left }),
    {
        Insets { top: 0, right: 0, bottom: 0, left }
    }

    /// Total of the left and right insets.
    pub fn horizontal(&self) -> (r: i32)
        requires
            i32::MIN <= self.left + self.right <= i32::MAX,
        ensures
            r == self.left + self.right,
    {
        self.left + self.right
    }

    /// Total of the top and bottom insets.
    pub fn vertical(&self) -> (r: i32)
        requires
            i32::MIN <= self.top + self.bottom <= i32::MAX,
        ensures
            r == self.top + self.bottom,
    {
        self.top + self.bottom
    }

    pub fn is_zero(&self) -> (r: bool)
        ensures
            r == (self.top == 0 && self.right == 0 && self.bottom == 0 && self.left == 0),
    {
        self.top == 0 && self.right == 0 && self.bottom == 0 && self.left == 0
    }

    pub fn is_non_negative(&self) -> (r: bool)
        ensures
            r == (self.top >= 0 && self.right >= 0 && self.bottom >= 0 && self.left >= 0),
    {
        self.top >= 0 && self.right >= 0 && self.bottom >= 0 && self.left >= 0
    }

    /// Each inset replaced by its absolute value.
    pub fn abs(&self) -> (r: Insets)
        requires
            self.top != i32::MIN,
            self.right != i32::MIN,
            self.bottom != i32::MIN,
            self.left != i32::MIN,
        ensures
            r.top == if self.top < 0 { -self.top } else { self.top as int },
            r.right == if self.right < 0 { -self.right } else { self.right as int },
            r.bottom == if self.bottom < 0 { -self.bottom } else { self.bottom as int },
            r.left == if self.left < 0 { -self.left } else { self.left as int },
    {
        Insets {
            top: if self.top < 0 { -self.top } else { self.top },
            right: if self.right < 0 { -self.right } else { self.right },
            bottom: if self.bottom < 0 { -self.bottom } else { self.bottom },
            left: if self.left < 0 { -self.left } else { self.left },
        }
    }

    /// Each inset raised to at least `min`.
    pub fn max(&self, min: i32) -> (r: Insets)
        ensures
            r.top == if self.top > min { self.top } else { min },
            r.right == if self.right > min { self.right } else { min },
            r.bottom == if self.bottom > min { self.bottom } else { min },
            r.left == if self.left > min { self.left } else { min },
    {
        Insets {
            top: if self.top > min { self.top } else { min },
            right: if self.right > min { self.right } else { min },
            bottom: if self.bottom > min { self.bottom } else { min },
            left: if self.left > min { self.left } else { min },
        }
    }
}

impl core::ops::Add for Insets {
    type Output = Insets;

    fn add(self, rhs: Insets) -> (r: Insets) {
        Insets {
            top: self.top + rhs.top,
            right: self.right + rhs.right,
            bottom: self.bottom + rhs.bottom,
            left: self.left + rhs.left,
        }
    }
}

impl vstd::std_specs::ops::AddSpecImpl for Insets {
    open spec fn obeys_add_spec() -> bool {
        true
    }

    open spec fn add_req(self, rhs: Insets) -> bool {
        &&& i32::MIN <= self.top + rhs.top <= i32::MAX
        &&& i32::MIN <= self.right + rhs.right <= i32::MAX
        &&& i32::MIN <= self.bottom + rhs.bottom <= i32::MAX
        &&& i32::MIN <= self.left + rhs.left <= i32::MAX
    }

    open spec fn add_spec(self, rhs: Insets) -> Insets {
        Insets {
            top: (self.top + rhs.top) as i32,
            right: (self.right + rhs.right) as i32,
            bottom: (self.bottom + rhs.bottom) as i32,
            left: (self.left + rhs.left) as i32,
        }
    }
}

impl core::ops::Sub for Insets {
    type Output = Insets;

    fn sub(self, rhs: Insets) -> (r: Insets) {
        Insets {
            top: self.top - rhs.top,
            right: self.right - rhs.right,
            bottom: self.bottom - rhs.bottom,
            left: self.left - rhs.left,
        }
    }
}

impl vstd::std_specs::ops::SubSpecImpl for Insets {
    open spec fn obeys_sub_spec() -> bool {
        true
    }

    open spec fn sub_req(self, rhs: Insets) -> bool {
        &&& i32::MIN <= self.top - rhs.top <= i32::MAX
        &&& i32::MIN <= self.right - rhs.right <= i32::MAX
        &&& i32::MIN <= self.bottom - rhs.bottom <= i32::MAX
        &&& i32::MIN <= self.left - rhs.left <= i32::MAX
    }

    open spec fn sub_spec(self, rhs: Insets) -> Insets {
        Insets {
            top: (self.top - rhs.top) as i32,
            right: (self.right - rhs.right) as i32,
            bottom: (self.bottom - rhs.bottom) as i32,
            left: (self.left - rhs.left) as i32,
        }
    }
}

} // verus!
