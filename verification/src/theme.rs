//! Colour palette of the TM-2077. Two variants — a dark matte-black body and
//! a light silver body — both with the warm amber backlit LCD of the Korg
//! TM-60. Colours are premultiplied RGBA bytes.

use vstd::prelude::*;

verus! {

/// Which visual theme the device wears.
#[derive(Clone, Copy, PartialEq, Eq, Debug, Structural)]
pub enum Theme {
    Dark,
    Light,
}

impl Default for Theme {
    fn default() -> (t: Theme)
        ensures
            t == Theme::Dark,
    {
        Theme::Dark
    }
}

/// A colour: premultiplied red, green, blue and alpha bytes.
#[derive(Clone, Copy, PartialEq, Eq, Debug, Structural)]
pub struct Rgba {
    pub r: u8,
    pub g: u8,
    pub b: u8,
    pub a: u8,
}

/// The full set of device colours for one theme.
#[derive(Clone, Copy, PartialEq, Eq, Debug, Structural)]
pub struct Palette {
    /// Background behind the device.
    pub panel: Rgba,
    // --- Device body ---
    pub body: Rgba,
    pub body_edge_hi: Rgba,
    pub body_edge_lo: Rgba,
    pub body_label: Rgba,
    pub body_label_dim: Rgba,
    // --- LCD (amber backlight, dark segments) ---
    pub lcd_bg: Rgba,
    pub lcd_bg_edge: Rgba,
    pub lcd_ink: Rgba,
    pub lcd_ink_dim: Rgba,
    pub lcd_frame: Rgba,
    pub bezel: Rgba,
    // --- LEDs ---
    pub led_red_on: Rgba,
    pub led_red_off: Rgba,
    pub led_green_on: Rgba,
    pub led_green_off: Rgba,
    // --- Buttons (rubber) ---
    pub btn: Rgba,
    pub btn_hi: Rgba,
    pub btn_lo: Rgba,
    pub btn_label: Rgba,
    pub btn_on: Rgba,
    // --- TAP TEMPO (red) ---
    pub tap: Rgba,
    pub tap_hi: Rgba,
    pub tap_lo: Rgba,
}

/// The matte-black body, the original look.
pub open spec fn spec_dark_palette() -> Palette {
    Palette {
        panel: Rgba { r: 0x0a, g: 0x0b, b: 0x0b, a: 0xff },
        body: Rgba { r: 0x1a, g: 0x1b, b: 0x1d, a: 0xff },
        body_edge_hi: Rgba { r: 0x34, g: 0x36, b: 0x3a, a: 0xff },
        body_edge_lo: Rgba { r: 0x0a, g: 0x0b, b: 0x0c, a: 0xff },
        body_label: Rgba { r: 0xcc, g: 0xd0, b: 0xd4, a: 0xff },
        body_label_dim: Rgba { r: 0x74, g: 0x79, b: 0x7e, a: 0xff },
        lcd_bg: Rgba { r: 0xf6, g: 0xac, b: 0x1e, a: 0xff },
        lcd_bg_edge: Rgba { r: 0xe2, g: 0x93, b: 0x10, a: 0xff },
        lcd_ink: Rgba { r: 0x2b, g: 0x1c, b: 0x04, a: 0xff },
        lcd_ink_dim: Rgba { r: 0x2b, g: 0x1c, b: 0x04, a: 0x24 },
        lcd_frame: Rgba { r: 0x53, g: 0x56, b: 0x5a, a: 0xff },
        bezel: Rgba { r: 0x08, g: 0x09, b: 0x0a, a: 0xff },
        led_red_on: Rgba { r: 0xff, g: 0x44, b: 0x33, a: 0xff },
        led_red_off: Rgba { r: 0x47, g: 0x1c, b: 0x18, a: 0xff },
        led_green_on: Rgba { r: 0x4c, g: 0xe6, b: 0x60, a: 0xff },
        led_green_off: Rgba { r: 0x1b, g: 0x4a, b: 0x25, a: 0xff },
        btn: Rgba { r: 0x3b, g: 0x3f, b: 0x44, a: 0xff },
        btn_hi: Rgba { r: 0x4d, g: 0x52, b: 0x58, a: 0xff },
        btn_lo: Rgba { r: 0x22, g: 0x24, b: 0x27, a: 0xff },
        btn_label: Rgba { r: 0xd4, g: 0xd8, b: 0xdc, a: 0xff },
        btn_on: Rgba { r: 0xf6, g: 0xac, b: 0x1e, a: 0xff },
        tap: Rgba { r: 0xe6, g: 0x43, b: 0x3f, a: 0xff },
        tap_hi: Rgba { r: 0xf4, g: 0x6d, b: 0x66, a: 0xff },
        tap_lo: Rgba { r: 0xb0, g: 0x2c, b: 0x2a, a: 0xff },
    }
}

/// The light silver body.
pub open spec fn spec_light_palette() -> Palette {
    Palette {
        panel: Rgba { r: 0xbe, g: 0xc1, b: 0xc5, a: 0xff },
        body: Rgba { r: 0xd7, g: 0xd9, b: 0xdc, a: 0xff },
        body_edge_hi: Rgba { r: 0xf2, g: 0xf4, b: 0xf6, a: 0xff },
        body_edge_lo: Rgba { r: 0xa4, g: 0xa7, b: 0xab, a: 0xff },
        body_label: Rgba { r: 0x2a, g: 0x2c, b: 0x2f, a: 0xff },
        body_label_dim: Rgba { r: 0x7a, g: 0x7d, b: 0x82, a: 0xff },
        lcd_bg: Rgba { r: 0xf6, g: 0xac, b: 0x1e, a: 0xff },
        lcd_bg_edge: Rgba { r: 0xe2, g: 0x93, b: 0x10, a: 0xff },
        lcd_ink: Rgba { r: 0x2b, g: 0x1c, b: 0x04, a: 0xff },
        lcd_ink_dim: Rgba { r: 0x2b, g: 0x1c, b: 0x04, a: 0x24 },
        lcd_frame: Rgba { r: 0x53, g: 0x56, b: 0x5a, a: 0xff },
        bezel: Rgba { r: 0x08, g: 0x09, b: 0x0a, a: 0xff },
        led_red_on: Rgba { r: 0xff, g: 0x44, b: 0x33, a: 0xff },
        led_red_off: Rgba { r: 0x47, g: 0x1c, b: 0x18, a: 0xff },
        led_green_on: Rgba { r: 0x4c, g: 0xe6, b: 0x60, a: 0xff },
        led_green_off: Rgba { r: 0x1b, g: 0x4a, b: 0x25, a: 0xff },
        btn: Rgba { r: 0xc3, g: 0xc6, b: 0xca, a: 0xff },
        btn_hi: Rgba { r: 0xdd, g: 0xe0, b: 0xe4, a: 0xff },
        btn_lo: Rgba { r: 0x9a, g: 0x9d, b: 0xa2, a: 0xff },
        btn_label: Rgba { r: 0x30, g: 0x32, b: 0x36, a: 0xff },
        btn_on: Rgba { r: 0xf6, g: 0xac, b: 0x1e, a: 0xff },
        tap: Rgba { r: 0xe6, g: 0x43, b: 0x3f, a: 0xff },
        tap_hi: Rgba { r: 0xf4, g: 0x6d, b: 0x66, a: 0xff },
        tap_lo: Rgba { r: 0xb0, g: 0x2c, b: 0x2a, a: 0xff },
    }
}

impl Palette {
    /// Matte-black body, the original look.
    pub fn dark() -> (p: Palette)
        ensures
            p == spec_dark_palette(),
    {
        Palette {
            panel: Rgba { r: 0x0a, g: 0x0b, b: 0x0b, a: 0xff },
            body: Rgba { r: 0x1a, g: 0x1b, b: 0x1d, a: 0xff },
            body_edge_hi: Rgba { r: 0x34, g: 0x36, b: 0x3a, a: 0xff },
            body_edge_lo: Rgba { r: 0x0a, g: 0x0b, b: 0x0c, a: 0xff },
            body_label: Rgba { r: 0xcc, g: 0xd0, b: 0xd4, a: 0xff },
            body_label_dim: Rgba { r: 0x74, g: 0x79, b: 0x7e, a: 0xff },
            lcd_bg: Rgba { r: 0xf6, g: 0xac, b: 0x1e, a: 0xff },
            lcd_bg_edge: Rgba { r: 0xe2, g: 0x93, b: 0x10, a: 0xff },
            lcd_ink: Rgba { r: 0x2b, g: 0x1c, b: 0x04, a: 0xff },
            lcd_ink_dim: Rgba { r: 0x2b, g: 0x1c, b: 0x04, a: 0x24 },
            lcd_frame: Rgba { r: 0x53, g: 0x56, b: 0x5a, a: 0xff },
            bezel: Rgba { r: 0x08, g: 0x09, b: 0x0a, a: 0xff },
            led_red_on: Rgba { r: 0xff, g: 0x44, b: 0x33, a: 0xff },
            led_red_off: Rgba { r: 0x47, g: 0x1c, b: 0x18, a: 0xff },
            led_green_on: Rgba { r: 0x4c, g: 0xe6, b: 0x60, a: 0xff },
            led_green_off: Rgba { r: 0x1b, g: 0x4a, b: 0x25, a: 0xff },
            btn: Rgba { r: 0x3b, g: 0x3f, b: 0x44, a: 0xff },
            btn_hi: Rgba { r: 0x4d, g: 0x52, b: 0x58, a: 0xff },
            btn_lo: Rgba { r: 0x22, g: 0x24, b: 0x27, a: 0xff },
            btn_label: Rgba { r: 0xd4, g: 0xd8, b: 0xdc, a: 0xff },
            btn_on: Rgba { r: 0xf6, g: 0xac, b: 0x1e, a: 0xff },
            tap: Rgba { r: 0xe6, g: 0x43, b: 0x3f, a: 0xff },
            tap_hi: Rgba { r: 0xf4, g: 0x6d, b: 0x66, a: 0xff },
            tap_lo: Rgba { r: 0xb0, g: 0x2c, b: 0x2a, a: 0xff },
        }
    }

    /// Light silver body. The amber LCD, LEDs and red TAP button are unchanged —
    /// only the body, buttons and labels flip to a light scheme.
    pub fn light() -> (p: Palette)
        ensures
            p == spec_light_palette(),
    {
        let dark = Self::dark();
        Palette {
            panel: Rgba { r: 0xbe, g: 0xc1, b: 0xc5, a: 0xff },
            body: Rgba { r: 0xd7, g: 0xd9, b: 0xdc, a: 0xff },
            body_edge_hi: Rgba { r: 0xf2, g: 0xf4, b: 0xf6, a: 0xff },
            body_edge_lo: Rgba { r: 0xa4, g: 0xa7, b: 0xab, a: 0xff },
            body_label: Rgba { r: 0x2a, g: 0x2c, b: 0x2f, a: 0xff },
            body_label_dim: Rgba { r: 0x7a, g: 0x7d, b: 0x82, a: 0xff },
            lcd_bg: dark.lcd_bg,
            lcd_bg_edge: dark.lcd_bg_edge,
            lcd_ink: dark.lcd_ink,
            lcd_ink_dim: dark.lcd_ink_dim,
            lcd_frame: dark.lcd_frame,
            bezel: dark.bezel,
            led_red_on: dark.led_red_on,
            led_red_off: dark.led_red_off,
            led_green_on: dark.led_green_on,
            led_green_off: dark.led_green_off,
            btn: Rgba { r: 0xc3, g: 0xc6, b: 0xca, a: 0xff },
            btn_hi: Rgba { r: 0xdd, g: 0xe0, b: 0xe4, a: 0xff },
            btn_lo: Rgba { r: 0x9a, g: 0x9d, b: 0xa2, a: 0xff },
            btn_label: Rgba { r: 0x30, g: 0x32, b: 0x36, a: 0xff },
            btn_on: dark.btn_on,
            tap: dark.tap,
            tap_hi: dark.tap_hi,
            tap_lo: dark.tap_lo,
        }
    }
}

impl Theme {
    /// The palette this theme paints with.
    pub fn palette(self) -> (p: Palette)
        ensures
            p == match self {
                Theme::Dark => spec_dark_palette(),
                Theme::Light => spec_light_palette(),
            },
    {
        match self {
            Theme::Dark => Palette::dark(),
            Theme::Light => Palette::light(),
        }
    }
}

/// The light theme only re-colours the body, the buttons and the labels:
/// the LCD, the bezel and frame, the LEDs, the lit-button amber and the TAP
/// button are those of the dark theme.
pub proof fn lemma_light_keeps_display_colours()
    ensures
        spec_light_palette().lcd_bg == spec_dark_palette().lcd_bg,
        spec_light_palette().lcd_bg_edge == spec_dark_palette().lcd_bg_edge,
        spec_light_palette().lcd_ink == spec_dark_palette().lcd_ink,
        spec_light_palette().lcd_ink_dim == spec_dark_palette().lcd_ink_dim,
        spec_light_palette().lcd_frame == spec_dark_palette().lcd_frame,
        spec_light_palette().bezel == spec_dark_palette().bezel,
        spec_light_palette().led_red_on == spec_dark_palette().led_red_on,
        spec_light_palette().led_red_off == spec_dark_palette().led_red_off,
        spec_light_palette().led_green_on == spec_dark_palette().led_green_on,
        spec_light_palette().led_green_off == spec_dark_palette().led_green_off,
        spec_light_palette().btn_on == spec_dark_palette().btn_on,
        spec_light_palette().tap == spec_dark_palette().tap,
        spec_light_palette().tap_hi == spec_dark_palette().tap_hi,
        spec_light_palette().tap_lo == spec_dark_palette().tap_lo,
{
}

} // verus!
