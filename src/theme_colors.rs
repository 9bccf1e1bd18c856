//! The colours of a theme: the tonal palettes it derives from and, for the
//! light and the dark scheme at each contrast level, the colours of each role.
use vstd::prelude::*;

use crate::theme::{Contrast, Scheme};

verus! {

/// An opaque colour, by its red, green and blue components.
#[derive(Clone, Copy, Debug, PartialEq, Eq, Structural)]
pub struct Color {
    pub r: u8,
    pub g: u8,
    pub b: u8,
}

pub fn rgb(r: u8, g: u8, b: u8) -> (c: Color)
    ensures
        c == (Color { r, g, b }),
{
    Color { r, g, b }
}

/// The surface roles of a scheme.
#[derive(Clone, Copy, Debug, PartialEq, Eq, Structural)]
pub enum Surface {
    Background,
    Surface,
    SurfaceVariant,
    SurfaceDim,
    SurfaceBright,
    InverseSurface,
}

/// The accent roles of a scheme.
#[derive(Clone, Copy, Debug, PartialEq, Eq, Structural)]
pub enum Accent {
    Primary,
    PrimaryFixed,
    PrimaryFixedDim,
    InversePrimary,
    Secondary,
    SecondaryFixed,
    SecondaryFixedDim,
    Tertiary,
    TertiaryFixed,
    TertiaryFixedDim,
    Error,
    Outline,
    OutlineVariant,
    Shadow,
    Scrim,
}

/// The container roles of a scheme.
#[derive(Clone, Copy, Debug, PartialEq, Eq, Structural)]
pub enum Container {
    Primary,
    Secondary,
    Tertiary,
    Error,
    SurfaceLowest,
    SurfaceLow,
    SurfaceMid,
    SurfaceHigh,
    SurfaceHighest,
}

/// The roles of content drawn on the other roles.
#[derive(Clone, Copy, Debug, PartialEq, Eq, Structural)]
pub enum On {
    Primary,
    PrimaryContainer,
    PrimaryFixed,
    PrimaryFixedVariant,
    Secondary,
    SecondaryContainer,
    SecondaryFixed,
    SecondaryFixedVariant,
    Tertiary,
    TertiaryContainer,
    TertiaryFixed,
    TertiaryFixedVariant,
    Error,
    ErrorContainer,
    Background,
    Surface,
    SurfaceVariant,
    InverseSurface,
}

/// A colour added to a theme beside its core colours.
#[derive(Clone, Debug)]
pub struct ExtendedColor {
    pub name: String,
    pub color: Color,
    pub description: String,
    pub harmonized: bool,
}

/// The colours a theme is generated from.
#[derive(Clone, Copy, Debug, PartialEq, Eq, Structural)]
pub struct CoreColors {
    pub primary: Color,
    pub secondary: Option<Color>,
    pub tertiary: Option<Color>,
    pub error: Option<Color>,
    pub neutral: Option<Color>,
    pub neutral_variant: Option<Color>,
}

/// The colour of each role in one scheme at one contrast level.
#[derive(Clone, Copy, Debug, PartialEq, Eq, Structural)]
pub struct SchemeColors {
    pub primary: Color,
    pub on_primary: Color,
    pub primary_container: Color,
    pub on_primary_container: Color,
    pub secondary: Color,
    pub on_secondary: Color,
    pub secondary_container: Color,
    pub on_secondary_container: Color,
    pub tertiary: Color,
    pub on_tertiary: Color,
    pub tertiary_container: Color,
    pub on_tertiary_container: Color,
    pub error: Color,
    pub on_error: Color,
    pub error_container: Color,
    pub on_error_container: Color,
    pub background: Color,
    pub on_background: Color,
    pub surface: Color,
    pub on_surface: Color,
    pub surface_variant: Color,
    pub on_surface_variant: Color,
    pub outline: Color,
    pub outline_variant: Color,
    pub shadow: Color,
    pub scrim: Color,
    pub inverse_surface: Color,
    pub inverse_on_surface: Color,
    pub inverse_primary: Color,
    pub primary_fixed: Color,
    pub on_primary_fixed: Color,
    pub primary_fixed_dim: Color,
    pub on_primary_fixed_variant: Color,
    pub secondary_fixed: Color,
    pub on_secondary_fixed: Color,
    pub secondary_fixed_dim: Color,
    pub on_secondary_fixed_variant: Color,
    pub tertiary_fixed: Color,
    pub on_tertiary_fixed: Color,
    pub tertiary_fixed_dim: Color,
    pub on_tertiary_fixed_variant: Color,
    pub surface_dim: Color,
    pub surface_bright: Color,
    pub surface_container_lowest: Color,
    pub surface_container_low: Color,
    pub surface_container: Color,
    pub surface_container_high: Color,
    pub surface_container_highest: Color,
}

impl SchemeColors {
    pub open spec fn surface_of(&self, surface: Surface) -> Color {
        match surface {
            Surface::Background => self.background,
            Surface::Surface => self.surface,
            Surface::InverseSurface => self.inverse_surface,
            Surface::SurfaceVariant => self.surface_variant,
            Surface::SurfaceDim => self.surface_dim,
            Surface::SurfaceBright => self.surface_bright,
        }
    }

    pub open spec fn accent_of(&self, accent: Accent) -> Color {
        match accent {
            Accent::Primary => self.primary,
            Accent::PrimaryFixed => self.primary_fixed,
            Accent::PrimaryFixedDim => self.primary_fixed_dim,
            Accent::InversePrimary => self.inverse_primary,
            Accent::Secondary => self.secondary,
            Accent::SecondaryFixed => self.secondary_fixed,
            Accent::SecondaryFixedDim => self.secondary_fixed_dim,
            Accent::Tertiary => self.tertiary,
            Accent::TertiaryFixed => self.tertiary_fixed,
            Accent::TertiaryFixedDim => self.tertiary_fixed_dim,
            Accent::Error => self.error,
            Accent::Outline => self.outline,
            Accent::OutlineVariant => self.outline_variant,
            Accent::Shadow => self.shadow,
            Accent::Scrim => self.scrim,
        }
    }

    pub open spec fn container_of(&self, container: Container) -> Color {
        match container {
            Container::Primary => self.primary_container,
            Container::Secondary => self.secondary_container,
            Container::Tertiary => self.tertiary_container,
            Container::Error => self.error_container,
            Container::SurfaceLowest => self.surface_container_lowest,
            Container::SurfaceLow => self.surface_container_low,
            Container::SurfaceMid => self.surface_container,
            Container::SurfaceHigh => self.surface_container_high,
            Container::SurfaceHighest => self.surface_container_highest,
        }
    }

    pub open spec fn on_of(&self, on: On) -> Color {
        match on {
            On::Primary => self.on_primary,
            On::PrimaryContainer => self.on_primary_container,
            On::PrimaryFixed => self.on_primary_fixed,
            On::PrimaryFixedVariant => self.on_primary_fixed_variant,
            On::Secondary => self.on_secondary,
            On::SecondaryContainer => self.on_secondary_container,
            On::SecondaryFixed => self.on_secondary_fixed,
            On::SecondaryFixedVariant => self.on_secondary_fixed_variant,
            On::Tertiary => self.on_tertiary,
            On::TertiaryContainer => self.on_tertiary_container,
            On::TertiaryFixed => self.on_tertiary_fixed,
            On::TertiaryFixedVariant => self.on_tertiary_fixed_variant,
            On::Error => self.on_error,
            On::ErrorContainer => self.on_error_container,
            On::Background => self.on_background,
            On::Surface => self.on_surface,
            On::SurfaceVariant => self.on_surface_variant,
            On::InverseSurface => self.inverse_on_surface,
        }
    }

    pub fn surface(&self, surface: Surface) -> (r: Color)
        ensures
            r == self.surface_of(surface),
    {
        match surface {
            Surface::Background => self.background,
            Surface::Surface => self.surface,
            Surface::InverseSurface => self.inverse_surface,
            Surface::SurfaceVariant => self.surface_variant,
            Surface::SurfaceDim => self.surface_dim,
            Surface::SurfaceBright => self.surface_bright,
        }
    }

    pub fn accent(&self, accent: Accent) -> (r: Color)
        ensures
            r == self.accent_of(accent),
    {
        match accent {
            Accent::Primary => self.primary,
            Accent::PrimaryFixed => self.primary_fixed,
            Accent::PrimaryFixedDim => self.primary_fixed_dim,
            Accent::InversePrimary => self.inverse_primary,
            Accent::Secondary => self.secondary,
            Accent::SecondaryFixed => self.secondary_fixed,
            Accent::SecondaryFixedDim => self.secondary_fixed_dim,
            Accent::Tertiary => self.tertiary,
            Accent::TertiaryFixed => self.tertiary_fixed,
            Accent::TertiaryFixedDim => self.tertiary_fixed_dim,
            Accent::Error => self.error,
            Accent::Outline => self.outline,
            Accent::OutlineVariant => self.outline_variant,
            Accent::Shadow => self.shadow,
            Accent::Scrim => self.scrim,
        }
    }

    pub fn container(&self, container: Container) -> (r: Color)
        ensures
            r == self.container_of(container),
    {
        match container {
            Container::Primary => self.primary_container,
            Container::Secondary => self.secondary_container,
            Container::Tertiary => self.tertiary_container,
            Container::Error => self.error_container,
            Container::SurfaceLowest => self.surface_container_lowest,
            Container::SurfaceLow => self.surface_container_low,
            Container::SurfaceMid => self.surface_container,
            Container::SurfaceHigh => self.surface_container_high,
            Container::SurfaceHighest => self.surface_container_highest,
        }
    }

    pub fn on(&self, on: On) -> (r: Color)
        ensures
            r == self.on_of(on),
    {
        match on {
            On::Primary => self.on_primary,
            On::PrimaryContainer => self.on_primary_container,
            On::PrimaryFixed => self.on_primary_fixed,
            On::PrimaryFixedVariant => self.on_primary_fixed_variant,
            On::Secondary => self.on_secondary,
            On::SecondaryContainer => self.on_secondary_container,
            On::SecondaryFixed => self.on_secondary_fixed,
            On::SecondaryFixedVariant => self.on_secondary_fixed_variant,
            On::Tertiary => self.on_tertiary,
            On::TertiaryContainer => self.on_tertiary_container,
            On::TertiaryFixed => self.on_tertiary_fixed,
            On::TertiaryFixedVariant => self.on_tertiary_fixed_variant,
            On::Error => self.on_error,
            On::ErrorContainer => self.on_error_container,
            On::Background => self.on_background,
            On::Surface => self.on_surface,
            On::SurfaceVariant => self.on_surface_variant,
            On::InverseSurface => self.inverse_on_surface,
        }
    }
}

/// A scheme at its three contrast levels.
#[derive(Clone, Copy, Debug, PartialEq, Eq, Structural)]
pub struct ColorScheme {
    pub colors: SchemeColors,
    pub medium_contrast: SchemeColors,
    pub high_contrast: SchemeColors,
}

impl ColorScheme {
    pub open spec fn contrast_of(&self, contrast: Contrast) -> SchemeColors {
        match contrast {
            Contrast::Standard => self.colors,
            Contrast::Medium => self.medium_contrast,
            Contrast::High => self.high_contrast,
        }
    }

    pub fn contrast(&self, contrast: Contrast) -> (r: SchemeColors)
        ensures
            r == self.contrast_of(contrast),
    {
        match contrast {
            Contrast::Standard => self.colors,
            Contrast::Medium => self.medium_contrast,
            Contrast::High => self.high_contrast,
        }
    }
}

#[derive(Clone, Copy, Debug, PartialEq, Eq, Structural)]
pub struct ColorSchemes {
    pub light: ColorScheme,
    pub dark: ColorScheme,
}

impl ColorSchemes {
    /// The colours that `scheme` selects.
    pub open spec fn select_of(&self, scheme: Scheme) -> SchemeColors {
        match scheme {
            Scheme::Light(c) => self.light.contrast_of(c),
            Scheme::Dark(c) => self.dark.contrast_of(c),
        }
    }
}

/// A tonal palette: one colour per tone, from black (0) to white (100).
#[derive(Clone, Copy, Debug, PartialEq, Eq, Structural)]
pub struct ColorPalette {
    pub p_0: Color,
    pub p_5: Color,
    pub p_10: Color,
    pub p_15: Color,
    pub p_20: Color,
    pub p_25: Color,
    pub p_30: Color,
    pub p_35: Color,
    pub p_40: Color,
    pub p_50: Color,
    pub p_60: Color,
    pub p_70: Color,
    pub p_80: Color,
    pub p_90: Color,
    pub p_95: Color,
    pub p_98: Color,
    pub p_99: Color,
    pub p_100: Color,
}

#[derive(Clone, Copy, Debug, PartialEq, Eq, Structural)]
pub struct ColorPalettes {
    pub primary: ColorPalette,
    pub secondary: ColorPalette,
    pub tertiary: ColorPalette,
    pub neutral: ColorPalette,
    pub neutral_variant: ColorPalette,
}

/// The colours of a theme, in the layout of a Material 3 theme.
#[derive(Clone, Debug)]
pub struct ThemeColors {
    pub description: String,
    pub seed: Color,
    pub core_colors: CoreColors,
    pub extended_colors: Vec<ExtendedColor>,
    pub schemes: ColorSchemes,
    pub palettes: ColorPalettes,
}

impl ThemeColors {
    /// The seed of the built-in theme.
    pub open spec fn default_seed() -> Color {
        Color { r: 0xEC, g: 0x0A, b: 0x1E }
    }
}

impl Default for ThemeColors {
    /// The built-in theme, generated from a red seed.
    fn default() -> (r: Self)
        ensures
            r.description@ == "Sickle UI Theme"@,
            r.seed == Self::default_seed(),
            r.core_colors == (CoreColors {
                primary: r.seed,
                secondary: None,
                tertiary: None,
                error: None,
                neutral: None,
                neutral_variant: None,
            }),
            r.extended_colors@.len() == 0,
            r.schemes.light.colors.primary == (Color { r: 0x90, g: 0x4A, b: 0x44 }),
            r.palettes.primary.p_0 == (Color { r: 0, g: 0, b: 0 }),
            r.palettes.primary.p_100 == (Color { r: 0xFF, g: 0xFF, b: 0xFF }),
    {
        proof {
            reveal_strlit("Sickle UI Theme");
        }
        Self {
            description: "Sickle UI Theme".to_owned(),
            seed: rgb(0xEC, 0x0A, 0x1E),
            core_colors: CoreColors {
                primary: rgb(0xEC, 0x0A, 0x1E),
                secondary: None,
                tertiary: None,
                error: None,
                neutral: None,
                neutral_variant: None,
            },
            extended_colors: Vec::new(),
            schemes: ColorSchemes {
                light: ColorScheme {
                    colors: SchemeColors {
                        primary: rgb(0x90, 0x4A, 0x44),
                        on_primary: rgb(0xFF, 0xFF, 0xFF),
                        primary_container: rgb(0xFF, 0xDA, 0xD6),
                        on_primary_container: rgb(0x3B, 0x09, 0x07),
                        secondary: rgb(0x77, 0x56, 0x53),
                        on_secondary: rgb(0xFF, 0xFF, 0xFF),
                        secondary_container: rgb(0xFF, 0xDA, 0xD6),
                        on_secondary_container: rgb(0x2C, 0x15, 0x13),
                        tertiary: rgb(0x71, 0x5B, 0x2E),
                        on_tertiary: rgb(0xFF, 0xFF, 0xFF),
                        tertiary_container: rgb(0xFE, 0xDF, 0xA6),
                        on_tertiary_container: rgb(0x26, 0x19, 0x00),
                        error: rgb(0xBA, 0x1A, 0x1A),
                        on_error: rgb(0xFF, 0xFF, 0xFF),
                        error_container: rgb(0xFF, 0xDA, 0xD6),
                        on_error_container: rgb(0x41, 0x00, 0x02),
                        background: rgb(0xFF, 0xF8, 0xF7),
                        on_background: rgb(0x23, 0x19, 0x18),
                        surface: rgb(0xFF, 0xF8, 0xF7),
                        on_surface: rgb(0x23, 0x19, 0x18),
                        surface_variant: rgb(0xF5, 0xDD, 0xDA),
                        on_surface_variant: rgb(0x53, 0x43, 0x41),
                        outline: rgb(0x85, 0x73, 0x71),
                        outline_variant: rgb(0xD8, 0xC2, 0xBF),
                        shadow: rgb(0x00, 0x00, 0x00),
                        scrim: rgb(0x00, 0x00, 0x00),
                        inverse_surface: rgb(0x39, 0x2E, 0x2D),
                        inverse_on_surface: rgb(0xFF, 0xED, 0xEA),
                        inverse_primary: rgb(0xFF, 0xB4, 0xAB),
                        primary_fixed: rgb(0xFF, 0xDA, 0xD6),
                        on_primary_fixed: rgb(0x3B, 0x09, 0x07),
                        primary_fixed_dim: rgb(0xFF, 0xB4, 0xAB),
                        on_primary_fixed_variant: rgb(0x73, 0x33, 0x2E),
                        secondary_fixed: rgb(0xFF, 0xDA, 0xD6),
                        on_secondary_fixed: rgb(0x2C, 0x15, 0x13),
                        secondary_fixed_dim: rgb(0xE7, 0xBD, 0xB8),
                        on_secondary_fixed_variant: rgb(0x5D, 0x3F, 0x3C),
                        tertiary_fixed: rgb(0xFE, 0xDF, 0xA6),
                        on_tertiary_fixed: rgb(0x26, 0x19, 0x00),
                        tertiary_fixed_dim: rgb(0xE0, 0xC3, 0x8C),
                        on_tertiary_fixed_variant: rgb(0x58, 0x44, 0x19),
                        surface_dim: rgb(0xE8, 0xD6, 0xD4),
                        surface_bright: rgb(0xFF, 0xF8, 0xF7),
                        surface_container_lowest: rgb(0xFF, 0xFF, 0xFF),
                        surface_container_low: rgb(0xFF, 0xF0, 0xEE),
                        surface_container: rgb(0xFC, 0xEA, 0xE7),
                        surface_container_high: rgb(0xF6, 0xE4, 0xE2),
                        surface_container_highest: rgb(0xF1, 0xDE, 0xDC),
                    },
                    medium_contrast: SchemeColors {
                        primary: rgb(0x6E, 0x30, 0x2A),
                        on_primary: rgb(0xFF, 0xFF, 0xFF),
                        primary_container: rgb(0xAA, 0x60, 0x58),
                        on_primary_container: rgb(0xFF, 0xFF, 0xFF),
                        secondary: rgb(0x59, 0x3B, 0x38),
                        on_secondary: rgb(0xFF, 0xFF, 0xFF),
                        secondary_container: rgb(0x8F, 0x6C, 0x68),
                        on_secondary_container: rgb(0xFF, 0xFF, 0xFF),
                        tertiary: rgb(0x53, 0x40, 0x15),
                        on_tertiary: rgb(0xFF, 0xFF, 0xFF),
                        tertiary_container: rgb(0x89, 0x71, 0x42),
                        on_tertiary_container: rgb(0xFF, 0xFF, 0xFF),
                        error: rgb(0x8C, 0x00, 0x09),
                        on_error: rgb(0xFF, 0xFF, 0xFF),
                        error_container: rgb(0xDA, 0x34, 0x2E),
                        on_error_container: rgb(0xFF, 0xFF, 0xFF),
                        background: rgb(0xFF, 0xF8, 0xF7),
                        on_background: rgb(0x23, 0x19, 0x18),
                        surface: rgb(0xFF, 0xF8, 0xF7),
                        on_surface: rgb(0x23, 0x19, 0x18),
                        surface_variant: rgb(0xF5, 0xDD, 0xDA),
                        on_surface_variant: rgb(0x4F, 0x3F, 0x3D),
                        outline: rgb(0x6C, 0x5B, 0x59),
                        outline_variant: rgb(0x89, 0x76, 0x74),
                        shadow: rgb(0x00, 0x00, 0x00),
                        scrim: rgb(0x00, 0x00, 0x00),
                        inverse_surface: rgb(0x39, 0x2E, 0x2D),
                        inverse_on_surface: rgb(0xFF, 0xED, 0xEA),
                        inverse_primary: rgb(0xFF, 0xB4, 0xAB),
                        primary_fixed: rgb(0xAA, 0x60, 0x58),
                        on_primary_fixed: rgb(0xFF, 0xFF, 0xFF),
                        primary_fixed_dim: rgb(0x8D, 0x48, 0x41),
                        on_primary_fixed_variant: rgb(0xFF, 0xFF, 0xFF),
                        secondary_fixed: rgb(0x8F, 0x6C, 0x68),
                        on_secondary_fixed: rgb(0xFF, 0xFF, 0xFF),
                        secondary_fixed_dim: rgb(0x74, 0x54, 0x50),
                        on_secondary_fixed_variant: rgb(0xFF, 0xFF, 0xFF),
                        tertiary_fixed: rgb(0x89, 0x71, 0x42),
                        on_tertiary_fixed: rgb(0xFF, 0xFF, 0xFF),
                        tertiary_fixed_dim: rgb(0x6F, 0x59, 0x2C),
                        on_tertiary_fixed_variant: rgb(0xFF, 0xFF, 0xFF),
                        surface_dim: rgb(0xE8, 0xD6, 0xD4),
                        surface_bright: rgb(0xFF, 0xF8, 0xF7),
                        surface_container_lowest: rgb(0xFF, 0xFF, 0xFF),
                        surface_container_low: rgb(0xFF, 0xF0, 0xEE),
                        surface_container: rgb(0xFC, 0xEA, 0xE7),
                        surface_container_high: rgb(0xF6, 0xE4, 0xE2),
                        surface_container_highest: rgb(0xF1, 0xDE, 0xDC),
                    },
                    high_contrast: SchemeColors {
                        primary: rgb(0x44, 0x10, 0x0D),
                        on_primary: rgb(0xFF, 0xFF, 0xFF),
                        primary_container: rgb(0x6E, 0x30, 0x2A),
                        on_primary_container: rgb(0xFF, 0xFF, 0xFF),
                        secondary: rgb(0x34, 0x1C, 0x19),
                        on_secondary: rgb(0xFF, 0xFF, 0xFF),
                        secondary_container: rgb(0x59, 0x3B, 0x38),
                        on_secondary_container: rgb(0xFF, 0xFF, 0xFF),
                        tertiary: rgb(0x2E, 0x20, 0x00),
                        on_tertiary: rgb(0xFF, 0xFF, 0xFF),
                        tertiary_container: rgb(0x53, 0x40, 0x15),
                        on_tertiary_container: rgb(0xFF, 0xFF, 0xFF),
                        error: rgb(0x4E, 0x00, 0x02),
                        on_error: rgb(0xFF, 0xFF, 0xFF),
                        error_container: rgb(0x8C, 0x00, 0x09),
                        on_error_container: rgb(0xFF, 0xFF, 0xFF),
                        background: rgb(0xFF, 0xF8, 0xF7),
                        on_background: rgb(0x23, 0x19, 0x18),
                        surface: rgb(0xFF, 0xF8, 0xF7),
                        on_surface: rgb(0x00, 0x00, 0x00),
                        surface_variant: rgb(0xF5, 0xDD, 0xDA),
                        on_surface_variant: rgb(0x2E, 0x21, 0x1F),
                        outline: rgb(0x4F, 0x3F, 0x3D),
                        outline_variant: rgb(0x4F, 0x3F, 0x3D),
                        shadow: rgb(0x00, 0x00, 0x00),
                        scrim: rgb(0x00, 0x00, 0x00),
                        inverse_surface: rgb(0x39, 0x2E, 0x2D),
                        inverse_on_surface: rgb(0xFF, 0xFF, 0xFF),
                        inverse_primary: rgb(0xFF, 0xE7, 0xE4),
                        primary_fixed: rgb(0x6E, 0x30, 0x2A),
                        on_primary_fixed: rgb(0xFF, 0xFF, 0xFF),
                        primary_fixed_dim: rgb(0x52, 0x1A, 0x16),
                        on_primary_fixed_variant: rgb(0xFF, 0xFF, 0xFF),
                        secondary_fixed: rgb(0x59, 0x3B, 0x38),
                        on_secondary_fixed: rgb(0xFF, 0xFF, 0xFF),
                        secondary_fixed_dim: rgb(0x40, 0x26, 0x23),
                        on_secondary_fixed_variant: rgb(0xFF, 0xFF, 0xFF),
                        tertiary_fixed: rgb(0x53, 0x40, 0x15),
                        on_tertiary_fixed: rgb(0xFF, 0xFF, 0xFF),
                        tertiary_fixed_dim: rgb(0x3B, 0x2A, 0x02),
                        on_tertiary_fixed_variant: rgb(0xFF, 0xFF, 0xFF),
                        surface_dim: rgb(0xE8, 0xD6, 0xD4),
                        surface_bright: rgb(0xFF, 0xF8, 0xF7),
                        surface_container_lowest: rgb(0xFF, 0xFF, 0xFF),
                        surface_container_low: rgb(0xFF, 0xF0, 0xEE),
                        surface_container: rgb(0xFC, 0xEA, 0xE7),
                        surface_container_high: rgb(0xF6, 0xE4, 0xE2),
                        surface_container_highest: rgb(0xF1, 0xDE, 0xDC),
                    },
                },
                dark: ColorScheme {
                    colors: SchemeColors {
                        primary: rgb(0xFF, 0xB4, 0xAB),
                        on_primary: rgb(0x56, 0x1E, 0x1A),
                        primary_container: rgb(0x73, 0x33, 0x2E),
                        on_primary_container: rgb(0xFF, 0xDA, 0xD6),
                        secondary: rgb(0xE7, 0xBD, 0xB8),
                        on_secondary: rgb(0x44, 0x29, 0x27),
                        secondary_container: rgb(0x5D, 0x3F, 0x3C),
                        on_secondary_container: rgb(0xFF, 0xDA, 0xD6),
                        tertiary: rgb(0xE0, 0xC3, 0x8C),
                        on_tertiary: rgb(0x3F, 0x2E, 0x04),
                        tertiary_container: rgb(0x58, 0x44, 0x19),
                        on_tertiary_container: rgb(0xFE, 0xDF, 0xA6),
                        error: rgb(0xFF, 0xB4, 0xAB),
                        on_error: rgb(0x69, 0x00, 0x05),
                        error_container: rgb(0x93, 0x00, 0x0A),
                        on_error_container: rgb(0xFF, 0xDA, 0xD6),
                        background: rgb(0x1A, 0x11, 0x10),
                        on_background: rgb(0xF1, 0xDE, 0xDC),
                        surface: rgb(0x1A, 0x11, 0x10),
                        on_surface: rgb(0xF1, 0xDE, 0xDC),
                        surface_variant: rgb(0x53, 0x43, 0x41),
                        on_surface_variant: rgb(0xD8, 0xC2, 0xBF),
                        outline: rgb(0xA0, 0x8C, 0x8A),
                        outline_variant: rgb(0x53, 0x43, 0x41),
                        shadow: rgb(0x00, 0x00, 0x00),
                        scrim: rgb(0x00, 0x00, 0x00),
                        inverse_surface: rgb(0xF1, 0xDE, 0xDC),
                        inverse_on_surface: rgb(0x39, 0x2E, 0x2D),
                        inverse_primary: rgb(0x90, 0x4A, 0x44),
                        primary_fixed: rgb(0xFF, 0xDA, 0xD6),
                        on_primary_fixed: rgb(0x3B, 0x09, 0x07),
                        primary_fixed_dim: rgb(0xFF, 0xB4, 0xAB),
                        on_primary_fixed_variant: rgb(0x73, 0x33, 0x2E),
                        secondary_fixed: rgb(0xFF, 0xDA, 0xD6),
                        on_secondary_fixed: rgb(0x2C, 0x15, 0x13),
                        secondary_fixed_dim: rgb(0xE7, 0xBD, 0xB8),
                        on_secondary_fixed_variant: rgb(0x5D, 0x3F, 0x3C),
                        tertiary_fixed: rgb(0xFE, 0xDF, 0xA6),
                        on_tertiary_fixed: rgb(0x26, 0x19, 0x00),
                        tertiary_fixed_dim: rgb(0xE0, 0xC3, 0x8C),
                        on_tertiary_fixed_variant: rgb(0x58, 0x44, 0x19),
                        surface_dim: rgb(0x15, 0x13, 0x0C),
                        surface_bright: rgb(0x3B, 0x39, 0x30),
                        surface_container_lowest: rgb(0x14, 0x0C, 0x0B),
                        surface_container_low: rgb(0x23, 0x19, 0x18),
                        surface_container: rgb(0x27, 0x1D, 0x1C),
                        surface_container_high: rgb(0x32, 0x28, 0x26),
                        surface_container_highest: rgb(0x3D, 0x32, 0x31),
                    },
                    medium_contrast: SchemeColors {
                        primary: rgb(0xFF, 0xBA, 0xB2),
                        on_primary: rgb(0x33, 0x04, 0x04),
                        primary_container: rgb(0xCC, 0x7B, 0x73),
                        on_primary_container: rgb(0x00, 0x00, 0x00),
                        secondary: rgb(0xEB, 0xC1, 0xBC),
                        on_secondary: rgb(0x26, 0x10, 0x0E),
                        secondary_container: rgb(0xAD, 0x88, 0x84),
                        on_secondary_container: rgb(0x00, 0x00, 0x00),
                        tertiary: rgb(0xE5, 0xC7, 0x90),
                        on_tertiary: rgb(0x1F, 0x14, 0x00),
                        tertiary_container: rgb(0xA7, 0x8D, 0x5B),
                        on_tertiary_container: rgb(0x00, 0x00, 0x00),
                        error: rgb(0xFF, 0xBA, 0xB1),
                        on_error: rgb(0x37, 0x00, 0x01),
                        error_container: rgb(0xFF, 0x54, 0x49),
                        on_error_container: rgb(0x00, 0x00, 0x00),
                        background: rgb(0x1A, 0x11, 0x10),
                        on_background: rgb(0xF1, 0xDE, 0xDC),
                        surface: rgb(0x1A, 0x11, 0x10),
                        on_surface: rgb(0xFF, 0xF9, 0xF9),
                        surface_variant: rgb(0x53, 0x43, 0x41),
                        on_surface_variant: rgb(0xDC, 0xC6, 0xC3),
                        outline: rgb(0xB3, 0x9E, 0x9C),
                        outline_variant: rgb(0x92, 0x7F, 0x7D),
                        shadow: rgb(0x00, 0x00, 0x00),
                        scrim: rgb(0x00, 0x00, 0x00),
                        inverse_surface: rgb(0xF1, 0xDE, 0xDC),
                        inverse_on_surface: rgb(0x32, 0x28, 0x26),
                        inverse_primary: rgb(0x74, 0x35, 0x2F),
                        primary_fixed: rgb(0xFF, 0xDA, 0xD6),
                        on_primary_fixed: rgb(0x2C, 0x01, 0x02),
                        primary_fixed_dim: rgb(0xFF, 0xB4, 0xAB),
                        on_primary_fixed_variant: rgb(0x5E, 0x23, 0x1F),
                        secondary_fixed: rgb(0xFF, 0xDA, 0xD6),
                        on_secondary_fixed: rgb(0x20, 0x0B, 0x09),
                        secondary_fixed_dim: rgb(0xE7, 0xBD, 0xB8),
                        on_secondary_fixed_variant: rgb(0x4B, 0x2F, 0x2C),
                        tertiary_fixed: rgb(0xFE, 0xDF, 0xA6),
                        on_tertiary_fixed: rgb(0x19, 0x10, 0x00),
                        tertiary_fixed_dim: rgb(0xE0, 0xC3, 0x8C),
                        on_tertiary_fixed_variant: rgb(0x46, 0x33, 0x09),
                        surface_dim: rgb(0x1A, 0x11, 0x10),
                        surface_bright: rgb(0x42, 0x37, 0x35),
                        surface_container_lowest: rgb(0x14, 0x0C, 0x0B),
                        surface_container_low: rgb(0x23, 0x19, 0x18),
                        surface_container: rgb(0x27, 0x1D, 0x1C),
                        surface_container_high: rgb(0x32, 0x28, 0x26),
                        surface_container_highest: rgb(0x3D, 0x32, 0x31),
                    },
                    high_contrast: SchemeColors {
                        primary: rgb(0xFF, 0xF9, 0xF9),
                        on_primary: rgb(0x00, 0x00, 0x00),
                        primary_container: rgb(0xFF, 0xBA, 0xB2),
                        on_primary_container: rgb(0x00, 0x00, 0x00),
                        secondary: rgb(0xFF, 0xF9, 0xF9),
                        on_secondary: rgb(0x00, 0x00, 0x00),
                        secondary_container: rgb(0xEB, 0xC1, 0xBC),
                        on_secondary_container: rgb(0x00, 0x00, 0x00),
                        tertiary: rgb(0xFF, 0xFA, 0xF7),
                        on_tertiary: rgb(0x00, 0x00, 0x00),
                        tertiary_container: rgb(0xE5, 0xC7, 0x90),
                        on_tertiary_container: rgb(0x00, 0x00, 0x00),
                        error: rgb(0xFF, 0xF9, 0xF9),
                        on_error: rgb(0x00, 0x00, 0x00),
                        error_container: rgb(0xFF, 0xBA, 0xB1),
                        on_error_container: rgb(0x00, 0x00, 0x00),
                        background: rgb(0x1A, 0x11, 0x10),
                        on_background: rgb(0xF1, 0xDE, 0xDC),
                        surface: rgb(0x1A, 0x11, 0x10),
                        on_surface: rgb(0xFF, 0xFF, 0xFF),
                        surface_variant: rgb(0x53, 0x43, 0x41),
                        on_surface_variant: rgb(0xFF, 0xF9, 0xF9),
                        outline: rgb(0xDC, 0xC6, 0xC3),
                        outline_variant: rgb(0xDC, 0xC6, 0xC3),
                        shadow: rgb(0x00, 0x00, 0x00),
                        scrim: rgb(0x00, 0x00, 0x00),
                        inverse_surface: rgb(0xF1, 0xDE, 0xDC),
                        inverse_on_surface: rgb(0x00, 0x00, 0x00),
                        inverse_primary: rgb(0x4E, 0x17, 0x14),
                        primary_fixed: rgb(0xFF, 0xE0, 0xDC),
                        on_primary_fixed: rgb(0x00, 0x00, 0x00),
                        primary_fixed_dim: rgb(0xFF, 0xBA, 0xB2),
                        on_primary_fixed_variant: rgb(0x33, 0x04, 0x04),
                        secondary_fixed: rgb(0xFF, 0xE0, 0xDC),
                        on_secondary_fixed: rgb(0x00, 0x00, 0x00),
                        secondary_fixed_dim: rgb(0xEB, 0xC1, 0xBC),
                        on_secondary_fixed_variant: rgb(0x26, 0x10, 0x0E),
                        tertiary_fixed: rgb(0xFF, 0xE3, 0xB2),
                        on_tertiary_fixed: rgb(0x00, 0x00, 0x00),
                        tertiary_fixed_dim: rgb(0xE5, 0xC7, 0x90),
                        on_tertiary_fixed_variant: rgb(0x1F, 0x14, 0x00),
                        surface_dim: rgb(0x1A, 0x11, 0x10),
                        surface_bright: rgb(0x42, 0x37, 0x35),
                        surface_container_lowest: rgb(0x14, 0x0C, 0x0B),
                        surface_container_low: rgb(0x23, 0x19, 0x18),
                        surface_container: rgb(0x27, 0x1D, 0x1C),
                        surface_container_high: rgb(0x32, 0x28, 0x26),
                        surface_container_highest: rgb(0x3D, 0x32, 0x31),
                    },
                },
            },
            palettes: ColorPalettes {
                primary: ColorPalette {
                    p_0: rgb(0x00, 0x00, 0x00),
                    p_5: rgb(0x2D, 0x00, 0x01),
                    p_10: rgb(0x41, 0x00, 0x02),
                    p_15: rgb(0x54, 0x00, 0x04),
                    p_20: rgb(0x69, 0x00, 0x06),
                    p_25: rgb(0x7D, 0x00, 0x09),
                    p_30: rgb(0x93, 0x00, 0x0D),
                    p_35: rgb(0xA9, 0x00, 0x10),
                    p_40: rgb(0xC0, 0x00, 0x14),
                    p_50: rgb(0xED, 0x0C, 0x1F),
                    p_60: rgb(0xFF, 0x54, 0x4B),
                    p_70: rgb(0xFF, 0x89, 0x7E),
                    p_80: rgb(0xFF, 0xB4, 0xAB),
                    p_90: rgb(0xFF, 0xDA, 0xD6),
                    p_95: rgb(0xFF, 0xED, 0xEA),
                    p_98: rgb(0xFF, 0xF8, 0xF7),
                    p_99: rgb(0xFF, 0xFB, 0xFF),
                    p_100: rgb(0xFF, 0xFF, 0xFF),
                },
                secondary: ColorPalette {
                    p_0: rgb(0x00, 0x00, 0x00),
                    p_5: rgb(0x2B, 0x02, 0x02),
                    p_10: rgb(0x3A, 0x0A, 0x08),
                    p_15: rgb(0x48, 0x14, 0x11),
                    p_20: rgb(0x55, 0x1F, 0x1A),
                    p_25: rgb(0x63, 0x29, 0x24),
                    p_30: rgb(0x72, 0x34, 0x2F),
                    p_35: rgb(0x80, 0x40, 0x3A),
                    p_40: rgb(0x8E, 0x4B, 0x45),
                    p_50: rgb(0xAC, 0x63, 0x5C),
                    p_60: rgb(0xCA, 0x7C, 0x74),
                    p_70: rgb(0xE8, 0x95, 0x8D),
                    p_80: rgb(0xFF, 0xB4, 0xAB),
                    p_90: rgb(0xFF, 0xDA, 0xD6),
                    p_95: rgb(0xFF, 0xED, 0xEA),
                    p_98: rgb(0xFF, 0xF8, 0xF7),
                    p_99: rgb(0xFF, 0xFB, 0xFF),
                    p_100: rgb(0xFF, 0xFF, 0xFF),
                },
                tertiary: ColorPalette {
                    p_0: rgb(0x00, 0x00, 0x00),
                    p_5: rgb(0x19, 0x0F, 0x00),
                    p_10: rgb(0x26, 0x19, 0x00),
                    p_15: rgb(0x33, 0x23, 0x00),
                    p_20: rgb(0x40, 0x2D, 0x00),
                    p_25: rgb(0x4E, 0x38, 0x00),
                    p_30: rgb(0x5C, 0x42, 0x00),
                    p_35: rgb(0x6B, 0x4D, 0x00),
                    p_40: rgb(0x7A, 0x59, 0x00),
                    p_50: rgb(0x99, 0x70, 0x00),
                    p_60: rgb(0xB9, 0x89, 0x00),
                    p_70: rgb(0xD9, 0xA2, 0x1B),
                    p_80: rgb(0xF7, 0xBD, 0x39),
                    p_90: rgb(0xFF, 0xDE, 0xA2),
                    p_95: rgb(0xFF, 0xEF, 0xD5),
                    p_98: rgb(0xFF, 0xF8, 0xF2),
                    p_99: rgb(0xFF, 0xFB, 0xFF),
                    p_100: rgb(0xFF, 0xFF, 0xFF),
                },
                neutral: ColorPalette {
                    p_0: rgb(0x00, 0x00, 0x00),
                    p_5: rgb(0x15, 0x10, 0x0F),
                    p_10: rgb(0x20, 0x1A, 0x19),
                    p_15: rgb(0x2B, 0x24, 0x23),
                    p_20: rgb(0x36, 0x2F, 0x2E),
                    p_25: rgb(0x41, 0x3A, 0x39),
                    p_30: rgb(0x4D, 0x45, 0x44),
                    p_35: rgb(0x59, 0x50, 0x4F),
                    p_40: rgb(0x65, 0x5C, 0x5B),
                    p_50: rgb(0x7F, 0x75, 0x74),
                    p_60: rgb(0x99, 0x8E, 0x8D),
                    p_70: rgb(0xB4, 0xA9, 0xA7),
                    p_80: rgb(0xD0, 0xC4, 0xC2),
                    p_90: rgb(0xED, 0xE0, 0xDE),
                    p_95: rgb(0xFB, 0xEE, 0xEC),
                    p_98: rgb(0xFF, 0xF8, 0xF7),
                    p_99: rgb(0xFF, 0xFB, 0xFF),
                    p_100: rgb(0xFF, 0xFF, 0xFF),
                },
                neutral_variant: ColorPalette {
                    p_0: rgb(0x00, 0x00, 0x00),
                    p_5: rgb(0x19, 0x0E, 0x0D),
                    p_10: rgb(0x25, 0x19, 0x17),
                    p_15: rgb(0x30, 0x23, 0x21),
                    p_20: rgb(0x3B, 0x2D, 0x2B),
                    p_25: rgb(0x47, 0x38, 0x36),
                    p_30: rgb(0x53, 0x43, 0x41),
                    p_35: rgb(0x5F, 0x4F, 0x4D),
                    p_40: rgb(0x6B, 0x5A, 0x58),
                    p_50: rgb(0x85, 0x73, 0x71),
                    p_60: rgb(0xA0, 0x8C, 0x8A),
                    p_70: rgb(0xBB, 0xA6, 0xA4),
                    p_80: rgb(0xD8, 0xC2, 0xBF),
                    p_90: rgb(0xF5, 0xDD, 0xDA),
                    p_95: rgb(0xFF, 0xED, 0xEA),
                    p_98: rgb(0xFF, 0xF8, 0xF7),
                    p_99: rgb(0xFF, 0xFB, 0xFF),
                    p_100: rgb(0xFF, 0xFF, 0xFF),
                },
            },
        }
    }
}

} // verus!
