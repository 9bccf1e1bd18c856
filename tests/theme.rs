use sickle_ui::theme::{Contrast, Scheme, ThemeData};
use sickle_ui::theme_colors::{rgb, Accent, Color, Container, On, Surface, ThemeColors};

fn hex(v: u32) -> Color {
    rgb((v >> 16) as u8, (v >> 8) as u8, v as u8)
}

#[test]
fn default_theme_colors() {
    let t = ThemeColors::default();
    assert_eq!(t.description, "Sickle UI Theme");
    assert_eq!(t.seed, hex(0xEC0A1E));
    assert_eq!(t.core_colors.primary, hex(0xEC0A1E));
    assert_eq!(t.core_colors.secondary, None);
    assert!(t.extended_colors.is_empty());
    assert_eq!(t.schemes.light.colors.primary, hex(0x904A44));
    assert_eq!(t.schemes.light.medium_contrast.primary, hex(0x6E302A));
    assert_eq!(t.schemes.light.high_contrast.primary, hex(0x44100D));
    assert_eq!(t.schemes.dark.colors.primary, hex(0xFFB4AB));
    assert_eq!(t.palettes.primary.p_50, hex(0xED0C1F));
    assert_eq!(t.palettes.primary.p_100, hex(0xFFFFFF));
}

#[test]
fn scheme_colors_select_roles() {
    let dark = ThemeColors::default().schemes.dark.colors;
    assert_eq!(dark.surface(Surface::Surface), hex(0x1A1110));
    assert_eq!(dark.accent(Accent::Scrim), hex(0x000000));
    assert_eq!(dark.accent(Accent::TertiaryFixedDim), hex(0xE0C38C));
    assert_eq!(dark.container(Container::SurfaceHighest), hex(0x3D3231));
    assert_eq!(dark.on(On::SurfaceVariant), hex(0xD8C2BF));
    assert_eq!(dark.on(On::InverseSurface), hex(0x392E2D));
    assert_eq!(dark.on(On::ErrorContainer), hex(0xFFDAD6));
    assert_eq!(dark.surface(Surface::Background), dark.background);
    assert_eq!(dark.accent(Accent::Primary), dark.primary);
}

#[test]
fn contrast_picks_level() {
    let dark = ThemeColors::default().schemes.dark;
    assert_eq!(dark.contrast(Contrast::Standard).primary, hex(0xFFB4AB));
    assert_eq!(dark.contrast(Contrast::Medium).primary, hex(0xFFBAB2));
    assert_eq!(dark.contrast(Contrast::High).primary, hex(0xFFF9F9));
    assert_eq!(dark.contrast(Contrast::High).on(On::InverseSurface), hex(0x000000));
}

#[test]
fn theme_data_uses_active_scheme() {
    let mut data = ThemeData::default();
    assert_eq!(data.active_scheme, Scheme::Dark(Contrast::Standard));
    assert_eq!(data.colors().primary, hex(0xFFB4AB));
    data.active_scheme = Scheme::Light(Contrast::High);
    assert_eq!(data.colors().primary, hex(0x44100D));
    data.active_scheme = Scheme::Dark(Contrast::Medium);
    assert_eq!(data.colors().on(On::SurfaceVariant), hex(0xDCC6C3));
}
