use vstd::prelude::*;

verus! {

/// Identifies one finger across the events of a touch.
#[derive(Clone, Copy, Debug, PartialEq, Eq, Hash, Default, Structural)]
pub struct TouchId(pub u32);

impl TouchId {
    pub fn new(id: u32) -> (t: TouchId)
        ensures
            t.0 == id,
    {
        TouchId(id)
    }

    /// The reserved invalid id, `u32::MAX`.
    #[allow(non_snake_case)]
    pub fn INVALID() -> (t: TouchId)
        ensures
            t.0 == u32::MAX,
    {
        TouchId(u32::MAX)
    }

    pub fn is_valid(&self) -> (b: bool)
        ensures
            b == (self.0 != u32::MAX),
    {
        self.0 != u32::MAX
    }
}

/// The stage of a touch.
#[derive(Clone, Copy, Debug, PartialEq, Eq, Hash, Default, Structural)]
pub enum TouchPhase {
    #[default]
    Begin,
    Move,
    End,
    Cancel,
}

impl TouchPhase {
    /// The stable wire code of each variant.
    pub open spec fn code(self) -> u8 {
        match self {
            TouchPhase::Begin => 0,
            TouchPhase::Move => 1,
            TouchPhase::End => 2,
            TouchPhase::Cancel => 3,
        }
    }

    /// The variant whose wire code is `value`, if any.
    pub fn from_u8(value: u8) -> (r: Option<TouchPhase>)
        ensures
            r is Some <==> (value <= 3),
            r matches Some(v) ==> v.code() == value,
    {
        match value {
            0 => Some(TouchPhase::Begin),
            1 => Some(TouchPhase::Move),
            2 => Some(TouchPhase::End),
            3 => Some(TouchPhase::Cancel),
            _ => None,
        }
    }

    /// Whether the finger is still down.
    pub fn is_active(&self) -> (r: bool)
        ensures
            r == (*self == TouchPhase::Begin || *self == TouchPhase::Move),
    {
        matches!(self, TouchPhase::Begin | TouchPhase::Move)
    }

    /// Whether the touch is over.
    pub fn is_end(&self) -> (r: bool)
        ensures
            r == (*self == TouchPhase::End || *self == TouchPhase::Cancel),
    {
        matches!(self, TouchPhase::End | TouchPhase::Cancel)
    }
}

/// A recognised touch gesture.
#[derive(Clone, Copy, Debug, PartialEq, Eq, Hash, Structural)]
pub enum GestureType {
    Tap,
    DoubleTap,
    LongPress,
    Swipe,
    Pinch,
    Rotate,
    Pan,
}

impl GestureType {
    /// The stable wire code of each variant.
    pub open spec fn code(self) -> u8 {
        match self {
            GestureType::Tap => 0,
            GestureType::DoubleTap => 1,
            GestureType::LongPress => 2,
            GestureType::Swipe => 3,
            GestureType::Pinch => 4,
            GestureType::Rotate => 5,
            GestureType::Pan => 6,
        }
    }

    /// The display name of each variant.
    pub open spec fn label(self) -> &'static str {
        match self {
            GestureType::Tap => "Tap",
            GestureType::DoubleTap => "Double Tap",
            GestureType::LongPress => "Long Press",
            GestureType::Swipe => "Swipe",
            GestureType::Pinch => "Pinch",
            GestureType::Rotate => "Rotate",
            GestureType::Pan => "Pan",
        }
    }

    /// The variant whose wire code is `value`, if any.
    pub fn from_u8(value: u8) -> (r: Option<GestureType>)
        ensures
            r is Some <==> (value <= 6),
            r matches Some(v) ==> v.code() == value,
    {
        match value {
            0 => Some(GestureType::Tap),
            1 => Some(GestureType::DoubleTap),
            2 => Some(GestureType::LongPress),
            3 => Some(GestureType::Swipe),
            4 => Some(GestureType::Pinch),
            5 => Some(GestureType::Rotate),
            6 => Some(GestureType::Pan),
            _ => None,
        }
    }

    /// The display name.
    pub fn name(&self) -> (r: &'static str)
        ensures
            r@ == self.label()@,
    {
        match self {
            GestureType::Tap => "Tap",
            GestureType::DoubleTap => "Double Tap",
            GestureType::LongPress => "Long Press",
            GestureType::Swipe => "Swipe",
            GestureType::Pinch => "Pinch",
            GestureType::Rotate => "Rotate",
            GestureType::Pan => "Pan",
        }
    }
    /// Fingers needed: two for pinch and rotate, one for the rest.
    pub fn min_touches(&self) -> (n: usize)
        ensures
            n == if *self == GestureType::Pinch || *self == GestureType::Rotate { 2usize } else { 1 },
    {
        match self {
            GestureType::Pinch | GestureType::Rotate => 2,
            _ => 1,
        }
    }
}

/// The direction of a swipe.
#[derive(Clone, Copy, Debug, PartialEq, Eq, Hash, Structural)]
pub enum SwipeDirection {
    Up,
    Down,
    Left,
    Right,
}

impl SwipeDirection {
    /// The stable wire code of each variant.
    pub open spec fn code(self) -> u8 {
        match self {
            SwipeDirection::Up => 0,
            SwipeDirection::Down => 1,
            SwipeDirection::Left => 2,
            SwipeDirection::Right => 3,
        }
    }

    /// The variant whose wire code is `value`, if any.
    pub fn from_u8(value: u8) -> (r: Option<SwipeDirection>)
        ensures
            r is Some <==> (value <= 3),
            r matches Some(v) ==> v.code() == value,
    {
        match value {
            0 => Some(SwipeDirection::Up),
            1 => Some(SwipeDirection::Down),
            2 => Some(SwipeDirection::Left),
            3 => Some(SwipeDirection::Right),
            _ => None,
        }
    }

    /// Whether the swipe is sideways.
    pub fn is_horizontal(&self) -> (r: bool)
        ensures
            r == (*self == SwipeDirection::Left || *self == SwipeDirection::Right),
    {
        matches!(self, SwipeDirection::Left | SwipeDirection::Right)
    }

    /// Whether the swipe is up or down.
    pub fn is_vertical(&self) -> (r: bool)
        ensures
            r == (*self == SwipeDirection::Up || *self == SwipeDirection::Down),
    {
        matches!(self, SwipeDirection::Up | SwipeDirection::Down)
    }
    /// The reverse direction.
    pub fn opposite(&self) -> (d: SwipeDirection)
        ensures
            d == match *self {
                SwipeDirection::Up => SwipeDirection::Down,
                SwipeDirection::Down => SwipeDirection::Up,
                SwipeDirection::Left => SwipeDirection::Right,
                SwipeDirection::Right => SwipeDirection::Left,
            },
    {
        match self {
            SwipeDirection::Up => SwipeDirection::Down,
            SwipeDirection::Down => SwipeDirection::Up,
            SwipeDirection::Left => SwipeDirection::Right,
            SwipeDirection::Right => SwipeDirection::Left,
        }
    }
}

} // verus!
