//! The frames that the animator writes to the strip: which pixels are lit,
//! gamma-corrected and scaled in brightness, and how long each is held.
use crate::light::Light;
use crate::status::{Ready, LEDS};
use smart_leds::hsv::{hsv2rgb, Hsv};
use smart_leds::{brightness, gamma, RGB8};
use vstd::prelude::*;

verus! {

/// Red level of a lit pixel before correction.
pub const FULL_LEVEL: u8 = 255;

/// Hue of the strip's indication color.
pub const RED_HUE: u8 = 0;

/// Saturation of the strip's indication color.
pub const FULL_SATURATION: u8 = 255;

/// Brightness scale applied to every frame.
pub const FRAME_BRIGHTNESS: u8 = 128;

/// How long the full-strip indication of a command is held, in milliseconds.
pub const COMMAND_HOLD_MS: u64 = 2000;

/// One pixel's color.
#[derive(Debug, Clone, Copy, PartialEq, Eq, Structural)]
pub struct Rgb {
    pub r: u8,
    pub g: u8,
    pub b: u8,
}

/// What the gamma table maps the channel value `v` to.
pub uninterp spec fn gamma8(v: u8) -> u8;

/// `v` scaled by a brightness of `level` out of 255.
pub open spec fn scaled(v: u8, level: u8) -> u8 {
    (v as int * (level as int + 1) / 256) as u8
}

/// `c` with each channel scaled by `level`.
pub open spec fn scaled_rgb(c: Rgb, level: u8) -> Rgb {
    Rgb { r: scaled(c.r, level), g: scaled(c.g, level), b: scaled(c.b, level) }
}

/// Full off and full on are left as they are by the gamma curve.
pub open spec fn ends_kept(c: Rgb, out: Rgb) -> bool {
    &&& (c.r == 0 ==> out.r == 0) && (c.r == 255 ==> out.r == 255)
    &&& (c.g == 0 ==> out.g == 0) && (c.g == 255 ==> out.g == 255)
    &&& (c.b == 0 ==> out.b == 0) && (c.b == 255 ==> out.b == 255)
}

/// The gamma-corrected value of channel value `v`.
pub open spec fn corrected(v: u8) -> u8 {
    if v == 0 {
        0
    } else if v == 255 {
        255
    } else {
        gamma8(v)
    }
}

/// Pixel `i` of a frame whose first `threshold` pixels are lit red at
/// `level`, at brightness `bright`.
pub open spec fn pixel(i: int, threshold: int, level: u8, bright: u8) -> Rgb {
    if i < threshold {
        Rgb { r: scaled(corrected(level), bright), g: 0, b: 0 }
    } else {
        Rgb { r: 0, g: 0, b: 0 }
    }
}

/// The whole frame whose first `threshold` pixels are lit red at `level`,
/// at brightness `bright`.
pub open spec fn frame(threshold: int, level: u8, bright: u8) -> Seq<Rgb> {
    Seq::new(LEDS as nat, |i: int| pixel(i, threshold, level, bright))
}

/// Relies on smart_leds' `hsv2rgb`: at hue 0 and full saturation the color
/// is pure red of level `val`.
#[verifier::external_body]
fn hsv_to_rgb(hue: u8, sat: u8, val: u8) -> (r: Rgb)
    ensures
        hue == 0 && sat == 255 ==> r == (Rgb { r: val, g: 0, b: 0 }),
{
    let c = hsv2rgb(Hsv { hue, sat, val });
    Rgb { r: c.r, g: c.g, b: c.b }
}

/// The red of level `val` that the strip shows: hue 0 at full saturation.
pub fn get_red(val: u8) -> (r: Rgb)
    ensures
        r == (Rgb { r: val, g: 0, b: 0 }),
{
    hsv_to_rgb(RED_HUE, FULL_SATURATION, val)
}

/// Relies on smart_leds' `gamma`: each channel goes through its fixed
/// gamma table, which keeps 0 and 255.
#[verifier::external_body]
fn gamma_correct(colors: &Vec<Rgb>) -> (r: Vec<Rgb>)
    ensures
        r@.len() == colors@.len(),
        forall|i: int|
            0 <= i < colors@.len() ==> r@[i] == (Rgb {
                r: gamma8((#[trigger] colors@[i]).r),
                g: gamma8(colors@[i].g),
                b: gamma8(colors@[i].b),
            }),
        forall|i: int| 0 <= i < colors@.len() ==> ends_kept(#[trigger] colors@[i], r@[i]),
{
    gamma(colors.iter().map(|c| RGB8::new(c.r, c.g, c.b))).map(|c| Rgb { r: c.r, g: c.g, b: c.b }).collect()
}

/// Relies on smart_leds' `brightness`: each channel becomes
/// `v * (level + 1) / 256`.
#[verifier::external_body]
fn dim(colors: &Vec<Rgb>, level: u8) -> (r: Vec<Rgb>)
    ensures
        r@.len() == colors@.len(),
        forall|i: int| 0 <= i < colors@.len() ==> r@[i] == scaled_rgb(#[trigger] colors@[i], level),
{
    brightness(colors.iter().map(|c| RGB8::new(c.r, c.g, c.b)), level).map(|c| Rgb { r: c.r, g: c.g, b: c.b }).collect()
}

/// The frame whose first `threshold` pixels are lit red at `level`,
/// gamma-corrected and scaled to brightness `bright`.
pub fn lit_frame(threshold: usize, level: u8, bright: u8) -> (r: Vec<Rgb>)
    ensures
        r@ == frame(threshold as int, level, bright),
{
    let mut raw: Vec<Rgb> = Vec::new();
    let mut i: usize = 0;
    while i < LEDS
        invariant
            i <= LEDS,
            raw@.len() == i,
            forall|j: int|
                0 <= j < i ==> #[trigger] raw@[j] == (Rgb {
                    r: if j < threshold {
                        level
                    } else {
                        0
                    },
                    g: 0,
                    b: 0,
                }),
        decreases LEDS - i,
    {
        let level_i = if i < threshold {
            level
        } else {
            0
        };
        raw.push(get_red(level_i));
        i = i + 1;
    }
    let gammas = gamma_correct(&raw);
    let r = dim(&gammas, bright);
    assert forall|j: int| 0 <= j < LEDS implies #[trigger] r@[j] == pixel(
        j,
        threshold as int,
        level,
        bright,
    ) by {
        assert(ends_kept(raw@[j], gammas@[j]));
        assert(r@[j] == scaled_rgb(gammas@[j], bright));
    }
    assert(r@ =~= frame(threshold as int, level, bright));
    r
}

/// One frame and how long it stays on the strip.
pub struct Phase {
    pub frame: Vec<Rgb>,
    pub hold_ms: u64,
}

/// What the animator acts on: a command record or a network milestone.
#[derive(Debug, Clone, Copy, PartialEq, Eq, Structural)]
pub enum AnimatorEvent {
    Command(Light),
    Status(Ready),
}

/// The frame of phase `i` of the blink that shows `s`: bright phases (even
/// `i`) light the first `enlight + blink` pixels, dark phases light none.
pub open spec fn blink_frame(s: Ready, i: int) -> Seq<Rgb> {
    if i % 2 == 0 {
        frame(s.enlight + s.blink, FULL_LEVEL, FRAME_BRIGHTNESS)
    } else {
        frame(0, FULL_LEVEL, FRAME_BRIGHTNESS)
    }
}

/// The phases that show `ev`. A command lights the whole strip for
/// `COMMAND_HOLD_MS`, whatever its fields. A milestone blinks `blink` times,
/// each time a bright then a dark phase of `blink_wait_ms` each.
pub fn render(ev: &AnimatorEvent) -> (r: Vec<Phase>)
    ensures
        match *ev {
            AnimatorEvent::Command(_) => r@.len() == 1 && r@[0].frame@ == frame(
                LEDS as int,
                FULL_LEVEL,
                FRAME_BRIGHTNESS,
            ) && r@[0].hold_ms == COMMAND_HOLD_MS,
            AnimatorEvent::Status(s) => r@.len() == 2 * s.blink && forall|i: int|
                0 <= i < r@.len() ==> (#[trigger] r@[i]).frame@ == blink_frame(s, i)
                    && r@[i].hold_ms == s.blink_wait_ms,
        },
{
    let mut phases: Vec<Phase> = Vec::new();
    match ev {
        AnimatorEvent::Command(_) => {
            phases.push(Phase { frame: lit_frame(LEDS, FULL_LEVEL, FRAME_BRIGHTNESS), hold_ms: COMMAND_HOLD_MS });
        },
        AnimatorEvent::Status(s) => {
            let threshold = s.bright_threshold();
            let cycles = s.blink as usize;
            let mut i: usize = 0;
            while i < 2 * cycles
                invariant
                    *ev == AnimatorEvent::Status(*s),
                    threshold == s.enlight + s.blink,
                    cycles == s.blink,
                    i <= 2 * cycles,
                    phases@.len() == i,
                    forall|j: int|
                        0 <= j < i ==> (#[trigger] phases@[j]).frame@ == blink_frame(*s, j)
                            && phases@[j].hold_ms == s.blink_wait_ms,
                decreases 2 * cycles - i,
            {
                let shown = if i % 2 == 0 {
                    lit_frame(threshold, FULL_LEVEL, FRAME_BRIGHTNESS)
                } else {
                    lit_frame(0, FULL_LEVEL, FRAME_BRIGHTNESS)
                };
                phases.push(Phase { frame: shown, hold_ms: s.blink_wait_ms });
                i = i + 1;
            }
        },
    }
    phases
}

} // verus!
