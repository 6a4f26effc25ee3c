use vstd::prelude::*;

use crate::names::NameFromEnum;

verus! {

/// The colour scheme of the interface.
#[derive(Clone, Copy, Debug, PartialEq, Eq, Structural)]
pub enum Theme {
    Dark,
    Light,
}

impl NameFromEnum for Theme {
    open spec fn spec_ident(&self) -> Seq<char> {
        match self {
            Theme::Dark => "Dark"@,
            Theme::Light => "Light"@,
        }
    }

    fn ident(&self) -> (r: &'static str) {
        match self {
            Theme::Dark => "Dark",
            Theme::Light => "Light",
        }
    }
}

impl Theme {
    pub open spec fn spec_emoji(self) -> &'static str {
        match self {
            Theme::Dark => "🌙",
            Theme::Light => "☀",
        }
    }

    /// The icon of the colour scheme.
    pub fn emoji(&self) -> (r: &'static str)
        ensures
            r == self.spec_emoji(),
    {
        match self {
            Theme::Dark => "🌙",
            Theme::Light => "☀",
        }
    }
}

impl Default for Theme {
    /// The dark scheme.
    fn default() -> (r: Self)
        ensures
            r == Theme::Dark,
    {
        Theme::Dark
    }
}

/// How much of the game's audio plays.
#[derive(Clone, Copy, Debug, PartialEq, Eq, Structural)]
pub enum AudioSetting {
    /// No sound at all.
    Mute,
    /// Sound effects only.
    NoMusic,
    /// Sound effects and music.
    Sound,
}

impl NameFromEnum for AudioSetting {
    open spec fn spec_ident(&self) -> Seq<char> {
        match self {
            AudioSetting::Mute => "Mute"@,
            AudioSetting::NoMusic => "NoMusic"@,
            AudioSetting::Sound => "Sound"@,
        }
    }

    fn ident(&self) -> (r: &'static str) {
        match self {
            AudioSetting::Mute => "Mute",
            AudioSetting::NoMusic => "NoMusic",
            AudioSetting::Sound => "Sound",
        }
    }
}

impl AudioSetting {
    pub open spec fn spec_emoji(self) -> &'static str {
        match self {
            AudioSetting::Mute => "🔕",
            AudioSetting::NoMusic => "🔇",
            AudioSetting::Sound => "🔊",
        }
    }

    /// The icon of the audio setting.
    pub fn emoji(&self) -> (r: &'static str)
        ensures
            r == self.spec_emoji(),
    {
        match self {
            AudioSetting::Mute => "🔕",
            AudioSetting::NoMusic => "🔇",
            AudioSetting::Sound => "🔊",
        }
    }
}

impl Default for AudioSetting {
    /// Sound effects without music.
    fn default() -> (r: Self)
        ensures
            r == AudioSetting::NoMusic,
    {
        AudioSetting::NoMusic
    }
}

impl AudioSetting {
    pub open spec fn spec_next(self) -> AudioSetting {
        match self {
            AudioSetting::Mute => AudioSetting::NoMusic,
            AudioSetting::NoMusic => AudioSetting::Sound,
            AudioSetting::Sound => AudioSetting::Mute,
        }
    }

    /// The setting that the music key switches to: muted, then sound effects, then
    /// sound with music, then muted again.
    pub fn next(&self) -> (r: AudioSetting)
        ensures
            r == self.spec_next(),
    {
        match self {
            AudioSetting::Mute => AudioSetting::NoMusic,
            AudioSetting::NoMusic => AudioSetting::Sound,
            AudioSetting::Sound => AudioSetting::Mute,
        }
    }

    /// Whether music plays.
    pub fn plays_music(&self) -> (r: bool)
        ensures
            r == (*self == AudioSetting::Sound),
    {
        matches!(self, AudioSetting::Sound)
    }

    /// Whether any sound plays.
    pub fn plays_sound(&self) -> (r: bool)
        ensures
            r == (*self != AudioSetting::Mute),
    {
        !matches!(self, AudioSetting::Mute)
    }
}

/// Pressing the music key three times brings back the setting one started from, and
/// each press changes it.
pub proof fn music_key_cycles(a: AudioSetting)
    ensures
        a.spec_next().spec_next().spec_next() == a,
        a.spec_next() != a,
{
}

/// A colour by its red, green and blue components.
pub type Rgb = (u8, u8, u8);

/// The light colour scheme, after the Nord palette.
#[derive(Clone, Copy, Debug, PartialEq, Eq, Structural)]
pub struct NordLight;

impl NordLight {
    /// The name of the scheme.
    pub fn name(&self) -> (r: &'static str)
        ensures
            r@ == "Nord Light"@,
    {
        "Nord Light"
    }

    /// The accent colour.
    pub fn primary_accent_color_visuals(&self) -> (r: Rgb)
        ensures
            r == (104u8, 161u8, 210u8),
    {
        (104, 161, 210)
    }

    /// The main background colour.
    pub fn bg_primary_color_visuals(&self) -> (r: Rgb)
        ensures
            r == (216u8, 222u8, 233u8),
    {
        (216, 222, 233)
    }

    /// The second background colour.
    pub fn bg_secondary_color_visuals(&self) -> (r: Rgb)
        ensures
            r == (229u8, 233u8, 240u8),
    {
        (229, 233, 240)
    }

    /// The third background colour.
    pub fn bg_triage_color_visuals(&self) -> (r: Rgb)
        ensures
            r == (255u8, 255u8, 255u8),
    {
        (255, 255, 255)
    }

    /// The auxiliary background colour.
    pub fn bg_auxiliary_color_visuals(&self) -> (r: Rgb)
        ensures
            r == (206u8, 212u8, 224u8),
    {
        (206, 212, 224)
    }

    /// The contrasting background colour.
    pub fn bg_contrast_color_visuals(&self) -> (r: Rgb)
        ensures
            r == (180u8, 186u8, 189u8),
    {
        (180, 186, 189)
    }

    /// The text colour: black.
    pub fn fg_primary_text_color_visuals(&self) -> (r: Option<Rgb>)
        ensures
            r == Some((0u8, 0u8, 0u8)),
    {
        Some((0, 0, 0))
    }

    /// The colour of warnings.
    pub fn fg_warn_text_color_visuals(&self) -> (r: Rgb)
        ensures
            r == (255u8, 179u8, 71u8),
    {
        (255, 179, 71)
    }

    /// The colour of errors.
    pub fn fg_error_text_color_visuals(&self) -> (r: Rgb)
        ensures
            r == (228u8, 97u8, 107u8),
    {
        (228, 97, 107)
    }

    /// Whether the scheme is dark: it is not.
    pub fn dark_mode_visuals(&self) -> (r: bool)
        ensures
            r == false,
    {
        false
    }

    /// The margin around panels.
    pub fn margin_style(&self) -> (r: i8)
        ensures
            r == 12,
    {
        12
    }

    /// The corner rounding.
    pub fn rounding_visuals(&self) -> (r: u8)
        ensures
            r == 6,
    {
        6
    }
}

} // verus!
