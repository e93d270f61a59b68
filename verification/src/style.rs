use vstd::prelude::*;

use crate::toast::Level;

verus! {

/// A color with 8-bit red, green, blue and alpha components.
#[derive(Copy, Clone, Debug, PartialEq, Eq, Structural)]
pub struct Rgba {
    pub r: u8,
    pub g: u8,
    pub b: u8,
    pub a: u8,
}

/// The theme colors the style functions draw from.
///
/// The host derives these from whatever theme machinery it uses and hands
/// them to the core as plain values.
#[derive(Copy, Clone, Debug, PartialEq, Eq, Structural)]
pub struct Palette {
    /// Base background color.
    pub background: Rgba,
    /// Text color that contrasts with `background`.
    pub text: Rgba,
    /// Accent color for informational notifications.
    pub primary: Rgba,
    /// Accent color for success notifications.
    pub success: Rgba,
    /// Accent color for warnings and errors.
    pub danger: Rgba,
}

/// Border attributes of a toast.
#[derive(Copy, Clone, Debug, PartialEq, Eq, Structural)]
pub struct Border {
    pub color: Rgba,
    pub width: u64,
    pub radius: u64,
}

/// Shadow attributes of a toast.
#[derive(Copy, Clone, Debug, PartialEq, Eq, Structural)]
pub struct Shadow {
    pub color: Rgba,
    pub offset_x: i64,
    pub offset_y: i64,
    pub blur: u64,
}

/// The resolved appearance of a toast.
#[derive(Copy, Clone, Debug, PartialEq, Eq, Structural)]
pub struct Style {
    pub text_color: Option<Rgba>,
    pub background: Option<Rgba>,
    pub border: Border,
    pub shadow: Shadow,
}

/// A fully transparent color.
pub open spec fn spec_transparent() -> Rgba {
    Rgba { r: 0, g: 0, b: 0, a: 0 }
}

/// The accent color a level maps to: informational toasts use the primary
/// accent, successful ones the success accent, warnings and errors the
/// danger accent.
pub open spec fn spec_level_color(level: Level, palette: Palette) -> Rgba {
    match level {
        Level::Info => palette.primary,
        Level::Success => palette.success,
        Level::Warning => palette.danger,
        Level::Error => palette.danger,
    }
}

/// Maps a notification level to its accent color under the given palette.
pub fn level_color(level: Level, palette: &Palette) -> (c: Rgba)
    ensures
        c == spec_level_color(level, *palette),
{
    match level {
        Level::Info => palette.primary,
        Level::Success => palette.success,
        Level::Warning => palette.danger,
        Level::Error => palette.danger,
    }
}

/// The stock appearance: themed text over the themed background, with a thin
/// square border in the text color and no shadow.
pub open spec fn spec_default_style(palette: Palette) -> Style {
    Style {
        text_color: Some(palette.text),
        background: Some(palette.background),
        border: Border { color: palette.text, width: 1, radius: 0 },
        shadow: Shadow { color: spec_transparent(), offset_x: 0, offset_y: 0, blur: 0 },
    }
}

/// Resolves the stock appearance for a palette.
pub fn default(palette: &Palette) -> (style: Style)
    ensures
        style == spec_default_style(*palette),
{
    Style {
        text_color: Some(palette.text),
        background: Some(palette.background),
        border: Border { color: palette.text, width: 1, radius: 0 },
        shadow: Shadow { color: Rgba { r: 0, g: 0, b: 0, a: 0 }, offset_x: 0, offset_y: 0, blur: 0 },
    }
}

/// Resolves the stock appearance with rounded corners.
pub fn rounded_box(palette: &Palette) -> (style: Style)
    ensures
        style == (spec_default_style(*palette)).spec_border((Border {
            color: palette.text,
            width: 1,
            radius: 5,
        })),
{
    let style = default(palette);
    style.border(Border { color: palette.text, width: 1, radius: 5 })
}

impl Style {
    /// The style with its text color replaced.
    pub open spec fn spec_color(self, color: Rgba) -> Style {
        Style { text_color: Some(color), ..self }
    }

    /// Updates the text color of the style.
    pub fn color(self, color: Rgba) -> (style: Style)
        ensures
            style == self.spec_color(color),
    {
        Style { text_color: Some(color), ..self }
    }

    /// The style with its border replaced.
    pub open spec fn spec_border(self, border: Border) -> Style {
        Style { border, ..self }
    }

    /// Updates the border of the style.
    pub fn border(self, border: Border) -> (style: Style)
        ensures
            style == self.spec_border(border),
    {
        Style { border, ..self }
    }

    /// The style with its background replaced.
    pub open spec fn spec_background(self, background: Rgba) -> Style {
        Style { background: Some(background), ..self }
    }

    /// Updates the background of the style.
    pub fn background(self, background: Rgba) -> (style: Style)
        ensures
            style == self.spec_background(background),
    {
        Style { background: Some(background), ..self }
    }

    /// The style with its shadow replaced.
    pub open spec fn spec_shadow(self, shadow: Shadow) -> Style {
        Style { shadow, ..self }
    }

    /// Updates the shadow of the style.
    pub fn shadow(self, shadow: Shadow) -> (style: Style)
        ensures
            style == self.spec_shadow(shadow),
    {
        Style { shadow, ..self }
    }
}

} // verus!
