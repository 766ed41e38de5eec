use vstd::prelude::*;

verus! {

/// Hundredths of a degree in one full turn of the hue circle.
pub const HUE_TURN: u32 = 36000;

/// Fixed-point representation of 1.0 for saturation and value (ten-thousandths).
pub const CHANNEL_ONE: u32 = 10000;

/// A colour in hue / saturation / value form, in fixed point.
///
/// `hue` counts hundredths of a degree and stays in `[0, HUE_TURN)`;
/// `saturation` and `value` count ten-thousandths and stay in `[0, CHANNEL_ONE]`.
#[derive(Clone, Copy, Debug, PartialEq, Eq, Structural)]
pub struct Hsv {
    pub hue: u32,
    pub saturation: u32,
    pub value: u32,
}

impl Hsv {
    pub open spec fn wf(self) -> bool {
        &&& self.hue < HUE_TURN
        &&& self.saturation <= CHANNEL_ONE
        &&& self.value <= CHANNEL_ONE
    }

    pub fn new(hue: u32, saturation: u32, value: u32) -> (r: Hsv)
        requires
            hue < HUE_TURN,
            saturation <= CHANNEL_ONE,
            value <= CHANNEL_ONE,
        ensures
            r == (Hsv { hue, saturation, value }),
            r.wf(),
    {
        Hsv { hue, saturation, value }
    }
}

/// The point of the hue circle that an unbounded angle (in hundredths of a degree) lands on.
pub open spec fn normalize_hue(h: int) -> int {
    h % (HUE_TURN as int)
}

/// A saturation or value target, brought into `[0, CHANNEL_ONE]`.
pub open spec fn clamp_channel(x: int) -> int {
    if x > CHANNEL_ONE {
        CHANNEL_ONE as int
    } else {
        x
    }
}

/// Pure red at full brightness.
pub open spec fn red_spec() -> Hsv {
    Hsv { hue: 0, saturation: CHANNEL_ONE, value: CHANNEL_ONE }
}

/// Pure blue at full brightness.
pub open spec fn blue_spec() -> Hsv {
    Hsv { hue: 24000, saturation: CHANNEL_ONE, value: CHANNEL_ONE }
}

/// All channels dark.
pub open spec fn black_spec() -> Hsv {
    Hsv { hue: 0, saturation: 0, value: 0 }
}

pub fn red() -> (r: Hsv)
    ensures
        r == red_spec(),
{
    Hsv { hue: 0, saturation: CHANNEL_ONE, value: CHANNEL_ONE }
}

pub fn blue() -> (r: Hsv)
    ensures
        r == blue_spec(),
{
    Hsv { hue: 24000, saturation: CHANNEL_ONE, value: CHANNEL_ONE }
}

pub fn black() -> (r: Hsv)
    ensures
        r == black_spec(),
{
    Hsv { hue: 0, saturation: 0, value: 0 }
}

/// Brings an angle in `(-2^32, 2^32)` hundredths of a degree onto the hue circle.
pub fn wrap_hue(h: i64) -> (r: u32)
    requires
        -0x1_0000_0000 < h < 0x1_0000_0000,
    ensures
        r as int == normalize_hue(h as int),
        r < HUE_TURN,
{
    let k: i64 = 36000 * 120000;
    let shifted: u64 = (h + k) as u64;
    proof {
        vstd::arithmetic::div_mod::lemma_mod_multiples_vanish(120000, h as int, 36000);
        assert(36000 * 120000 + h == h + k);
    }
    (shifted % 36000) as u32
}

} // verus!
