use vstd::prelude::*;

verus! {

/// The kernel used to blur behind a window.
#[derive(Clone, Copy, Debug, PartialEq, Eq, Hash, Default, Structural)]
pub enum BlurType {
    #[default]
    Box,
    Gaussian,
    Motion,
    Radial,
}

impl BlurType {
    /// The stable wire code of each variant.
    pub open spec fn code(self) -> u8 {
        match self {
            BlurType::Box => 0,
            BlurType::Gaussian => 1,
            BlurType::Motion => 2,
            BlurType::Radial => 3,
        }
    }

    /// The display name of each variant.
    pub open spec fn label(self) -> &'static str {
        match self {
            BlurType::Box => "Box",
            BlurType::Gaussian => "Gaussian",
            BlurType::Motion => "Motion",
            BlurType::Radial => "Radial",
        }
    }

    /// The variant whose wire code is `value`, if any.
    pub fn from_u8(value: u8) -> (r: Option<BlurType>)
        ensures
            r is Some <==> (value <= 3),
            r matches Some(v) ==> v.code() == value,
    {
        match value {
            0 => Some(BlurType::Box),
            1 => Some(BlurType::Gaussian),
            2 => Some(BlurType::Motion),
            3 => Some(BlurType::Radial),
            _ => None,
        }
    }

    /// The display name.
    pub fn name(&self) -> (r: &'static str)
        ensures
            r@ == self.label()@,
    {
        match self {
            BlurType::Box => "Box",
            BlurType::Gaussian => "Gaussian",
            BlurType::Motion => "Motion",
            BlurType::Radial => "Radial",
        }
    }
}

} // verus!
