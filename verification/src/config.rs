//! User configuration sections and their documented defaults.

use vstd::prelude::*;

verus! {

/// Look of the scene: background colour, theme name and starting weather.
pub struct Appearance {
    pub solid_background_color: String,
    pub global_theme: String,
    pub default_weather: String,
}

impl Default for Appearance {
    /// An appearance with no solid background, the `default` theme and clear weather.
    fn default() -> (r: Self)
        ensures
            r.solid_background_color@ == ""@,
            r.global_theme@ == "default"@,
            r.default_weather@ == "clear"@,
    {
        Appearance {
            solid_background_color: String::from_str(""),
            global_theme: String::from_str("default"),
            default_weather: String::from_str("clear"),
        }
    }
}

/// Overrides for the central monolith tower: its sign text, sign colour and
/// the distribution whose logo it shows.
pub struct MonolithConfig {
    pub custom_text: String,
    pub custom_color: String,
    pub override_distro: String,
}

impl Default for MonolithConfig {
    /// No overrides: every field is empty.
    fn default() -> (r: Self)
        ensures
            r.custom_text@ == Seq::<char>::empty(),
            r.custom_color@ == Seq::<char>::empty(),
            r.override_distro@ == Seq::<char>::empty(),
    {
        MonolithConfig {
            custom_text: String::new(),
            custom_color: String::new(),
            override_distro: String::new(),
        }
    }
}

} // verus!
