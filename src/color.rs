use crate::ratio::{mul_wide, Ratio};
use vstd::prelude::*;

verus! {

/// The byte for one color channel: the value clamped to `[0, 1]`, scaled to
/// `[0, 255]` and truncated.
pub open spec fn channel_byte(v: (int, int)) -> int {
    if v.0 <= 0 {
        0
    } else if v.0 >= v.1 {
        255
    } else {
        (v.0 * 255) / v.1
    }
}

/// A red, green, blue, alpha color; each channel nominally in `[0, 1]`.
#[derive(Clone, Copy, Debug)]
pub struct Color {
    channels: [Ratio; 4],
}

impl View for Color {
    type V = Seq<Ratio>;

    closed spec fn view(&self) -> Seq<Ratio> {
        self.channels@
    }
}

impl Color {
    pub fn new(r: Ratio, g: Ratio, b: Ratio, a: Ratio) -> (c: Color)
        ensures
            c@ == seq![r, g, b, a],
    {
        let c = Color { channels: [r, g, b, a] };
        assert(c@ =~= seq![r, g, b, a]);
        c
    }

    /// An opaque color.
    pub fn rgb(r: Ratio, g: Ratio, b: Ratio) -> (c: Color)
        ensures
            c@.len() == 4,
            c@[0] == r,
            c@[1] == g,
            c@[2] == b,
            c@[3]@ == (1int, 1int),
    {
        Color::new(r, g, b, Ratio::one())
    }

    /// Opaque white, the neutral color factor.
    pub fn white() -> (c: Color)
        ensures
            c@.len() == 4,
            forall|i: int| 0 <= i < 4 ==> (#[trigger] c@[i])@ == (1int, 1int),
    {
        Color::new(Ratio::one(), Ratio::one(), Ratio::one(), Ratio::one())
    }

    pub fn to_array(&self) -> (r: [Ratio; 4])
        ensures
            r@ == self@,
    {
        self.channels
    }

    pub fn unpack(&self) -> (r: (Ratio, Ratio, Ratio, Ratio))
        ensures
            r == (self@[0], self@[1], self@[2], self@[3]),
    {
        (self.channels[0], self.channels[1], self.channels[2], self.channels[3])
    }

    /// The four channels as bytes.
    pub fn to_u8_array(&self) -> (r: [u8; 4])
        ensures
            forall|i: int| 0 <= i < 4 ==> r[i] as int == channel_byte(#[trigger] self@[i]@),
    {
        let r = [
            channel_to_byte(self.channels[0]),
            channel_to_byte(self.channels[1]),
            channel_to_byte(self.channels[2]),
            channel_to_byte(self.channels[3]),
        ];
        r
    }
}

/// One channel as a byte.
fn channel_to_byte(v: Ratio) -> (r: u8)
    ensures
        r as int == channel_byte(v@),
{
    let n = v.numer();
    let d = v.denom();
    if n <= 0 {
        0
    } else if n >= d {
        255
    } else {
        let scaled = mul_wide(n, 255);
        let q = scaled / (d as i128);
        proof {
            assert(q < 255) by (nonlinear_arith)
                requires
                    q as int == scaled as int / d as int,
                    scaled == n * 255,
                    0 < n < d,
            ;
        }
        q as u8
    }
}

} // verus!
