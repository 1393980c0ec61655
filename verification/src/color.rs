use vstd::prelude::*;

verus! {

/// An exact channel intensity: the rational `num / den`, normalized to [0, 1].
#[derive(Clone, Copy, Debug, PartialEq, Eq, Structural)]
pub struct Channel {
    pub num: u32,
    pub den: u32,
}

/// A channel denotes a value in [0, 1]: positive denominator, numerator at most it.
pub open spec fn channel_wf(c: Channel) -> bool {
    0 < c.den && c.num <= c.den
}

/// An RGBA color with exact rational channels.
#[derive(Clone, Copy, Debug, PartialEq, Eq, Structural)]
pub struct Color {
    pub r: Channel,
    pub g: Channel,
    pub b: Channel,
    pub a: Channel,
}

pub open spec fn color_wf(c: Color) -> bool {
    channel_wf(c.r) && channel_wf(c.g) && channel_wf(c.b) && channel_wf(c.a)
}

proof fn lemma_u32_product_fits_u64(a: int, b: int)
    by (nonlinear_arith)
    requires
        0 <= a < 0x1_0000_0000,
        0 <= b < 0x1_0000_0000,
    ensures
        a * b < 0x1_0000_0000_0000_0000,
{
}

/// Whether the channel denotes the same rational as `num / den`.
pub fn channel_eq_frac(c: &Channel, num: u32, den: u32) -> (r: bool)
    ensures
        r == ((c.num as int) * (den as int) == (num as int) * (c.den as int)),
{
    proof {
        lemma_u32_product_fits_u64(c.num as int, den as int);
        lemma_u32_product_fits_u64(num as int, c.den as int);
    }
    (c.num as u64) * (den as u64) == (num as u64) * (c.den as u64)
}

} // verus!
