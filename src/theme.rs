//! The key that selects a colour scheme: light or dark, at one of three
//! contrast levels.
use vstd::prelude::*;

use crate::theme_colors::{SchemeColors, ThemeColors};

verus! {

#[derive(Clone, Copy, Debug, PartialEq, Eq, Structural)]
pub enum Contrast {
    Standard,
    Medium,
    High,
}

impl Default for Contrast {
    fn default() -> (r: Self)
        ensures
            r == Contrast::Standard,
    {
        Contrast::Standard
    }
}

#[derive(Clone, Copy, Debug, PartialEq, Eq, Structural)]
pub enum Scheme {
    Light(Contrast),
    Dark(Contrast),
}

impl Default for Scheme {
    fn default() -> (r: Self)
        ensures
            r == Scheme::Dark(Contrast::Standard),
    {
        Scheme::Dark(Contrast::Standard)
    }
}

impl Scheme {
    pub fn is_light(&self) -> (r: bool)
        ensures
            r == (*self is Light),
    {
        match self {
            Scheme::Light(_) => true,
            Scheme::Dark(_) => false,
        }
    }

    pub fn is_dark(&self) -> (r: bool)
        ensures
            r == (*self is Dark),
    {
        match self {
            Scheme::Light(_) => false,
            Scheme::Dark(_) => true,
        }
    }
}

/// The colour part of a theme: the active scheme and the colours of all
/// schemes.
#[derive(Clone, Debug)]
pub struct ThemeData {
    pub active_scheme: Scheme,
    pub colors: ThemeColors,
}

impl Default for ThemeData {
    fn default() -> (r: Self)
        ensures
            r.active_scheme == Scheme::Dark(Contrast::Standard),
            r.colors.seed == ThemeColors::default_seed(),
    {
        ThemeData { active_scheme: Scheme::default(), colors: ThemeColors::default() }
    }
}

impl ThemeData {
    /// The colours of the active scheme at its contrast level.
    pub fn colors(&self) -> (r: SchemeColors)
        ensures
            r == self.colors.schemes.select_of(self.active_scheme),
    {
        match self.active_scheme {
            Scheme::Light(contrast) => self.colors.schemes.light.contrast(contrast),
            Scheme::Dark(contrast) => self.colors.schemes.dark.contrast(contrast),
        }
    }
}

} // verus!
