use iced_toasts::style::{self, Border, Palette, Rgba, Shadow};
use iced_toasts::toast::Level;

fn palette() -> Palette {
    Palette {
        background: Rgba { r: 30, g: 30, b: 46, a: 255 },
        text: Rgba { r: 205, g: 214, b: 244, a: 255 },
        primary: Rgba { r: 137, g: 180, b: 250, a: 255 },
        success: Rgba { r: 166, g: 227, b: 161, a: 255 },
        danger: Rgba { r: 243, g: 139, b: 168, a: 255 },
    }
}

#[test]
fn level_colors_follow_palette_accents() {
    let p = palette();
    assert_eq!(style::level_color(Level::Info, &p), p.primary);
    assert_eq!(style::level_color(Level::Success, &p), p.success);
    assert_eq!(style::level_color(Level::Warning, &p), p.danger);
    assert_eq!(style::level_color(Level::Error, &p), p.danger);
}

#[test]
fn default_style_uses_theme_text_and_background() {
    let p = palette();
    let s = style::default(&p);
    assert_eq!(s.text_color, Some(p.text));
    assert_eq!(s.background, Some(p.background));
    assert_eq!(s.border, Border { color: p.text, width: 1, radius: 0 });
    assert_eq!(s.shadow, Shadow { color: Rgba { r: 0, g: 0, b: 0, a: 0 }, offset_x: 0, offset_y: 0, blur: 0 });
}

#[test]
fn rounded_box_only_rounds_the_border() {
    let p = palette();
    let plain = style::default(&p);
    let round = style::rounded_box(&p);
    assert_eq!(round.text_color, plain.text_color);
    assert_eq!(round.background, plain.background);
    assert_eq!(round.shadow, plain.shadow);
    assert_eq!(round.border, Border { color: p.text, width: 1, radius: 5 });
}

#[test]
fn style_builders_replace_single_attributes() {
    let p = palette();
    let accent = Rgba { r: 1, g: 2, b: 3, a: 4 };
    let s = style::default(&p).color(accent);
    assert_eq!(s.text_color, Some(accent));
    assert_eq!(s.background, Some(p.background));
    let s = s.background(accent);
    assert_eq!(s.background, Some(accent));
    let b = Border { color: accent, width: 3, radius: 2 };
    let s = s.border(b);
    assert_eq!(s.border, b);
    let sh = Shadow { color: accent, offset_x: 1, offset_y: -2, blur: 6 };
    let s = s.shadow(sh);
    assert_eq!(s.shadow, sh);
}

#[test]
fn level_labels_name_the_level() {
    assert_eq!(Level::Info.label(), "Info");
    assert_eq!(Level::Success.label(), "Success");
    assert_eq!(Level::Warning.label(), "Warning");
    assert_eq!(Level::Error.label(), "Error");
}
