//! The colour that a frame is cleared to. A channel is kept as the exact
//! quotient that defines it: the division itself is the host's, made when
//! the colour is handed to the GPU.

use vstd::prelude::*;

verus! {

/// One channel of a colour.
#[derive(Clone, Copy, Debug, PartialEq, Eq, Structural)]
pub enum Channel {
    /// The double-precision number with this bit pattern.
    Constant { bits: u64 },
    /// The double-precision number with the bit pattern `numerator`, divided
    /// by `denominator`; nothing else is done to it.
    Quotient { numerator: u64, denominator: u32 },
}

/// A colour: red, green, blue and alpha.
#[derive(Clone, Copy, Debug, PartialEq, Eq, Structural)]
pub struct Color {
    pub r: Channel,
    pub g: Channel,
    pub b: Channel,
    pub a: Channel,
}

/// The bit pattern of 0.1.
pub const ONE_TENTH: u64 = 0x3FB9_9999_9999_999A;

/// The bit pattern of 0.2.
pub const TWO_TENTHS: u64 = 0x3FC9_9999_9999_999A;

/// The bit pattern of 0.3.
pub const THREE_TENTHS: u64 = 0x3FD3_3333_3333_3333;

/// The bit pattern of 1.0.
pub const ONE: u64 = 0x3FF0_0000_0000_0000;

impl Color {
    /// The colour that the host starts with: 0.1, 0.2, 0.3, opaque.
    pub open spec fn initial() -> Color {
        Color {
            r: Channel::Constant { bits: ONE_TENTH },
            g: Channel::Constant { bits: TWO_TENTHS },
            b: Channel::Constant { bits: THREE_TENTHS },
            a: Channel::Constant { bits: ONE },
        }
    }

    /// This colour with red and green set by a pointer position: red is the
    /// pointer's x over the surface's width, green its y over the height.
    /// Blue and alpha stay.
    pub open spec fn spec_pointed(self, x: u64, y: u64, width: u32, height: u32) -> Color {
        Color {
            r: Channel::Quotient { numerator: x, denominator: width },
            g: Channel::Quotient { numerator: y, denominator: height },
            b: self.b,
            a: self.a,
        }
    }

    /// The colour that the host starts with.
    pub fn start() -> (color: Color)
        ensures
            color == Color::initial(),
    {
        Color {
            r: Channel::Constant { bits: ONE_TENTH },
            g: Channel::Constant { bits: TWO_TENTHS },
            b: Channel::Constant { bits: THREE_TENTHS },
            a: Channel::Constant { bits: ONE },
        }
    }

    /// This colour with red and green set by a pointer position.
    pub fn pointed(self, x: u64, y: u64, width: u32, height: u32) -> (color: Color)
        ensures
            color == self.spec_pointed(x, y, width, height),
    {
        Color {
            r: Channel::Quotient { numerator: x, denominator: width },
            g: Channel::Quotient { numerator: y, denominator: height },
            b: self.b,
            a: self.a,
        }
    }
}

} // verus!
