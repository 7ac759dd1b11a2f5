//! The configuration that the plugin starts iced with.

use vstd::prelude::*;
use iced_core::Settings;

verus! {

/// iced's settings: default font, default text size and the rest.
#[verifier::external_type_specification]
#[verifier::external_body]
pub struct ExSettings(Settings);

/// Calls `iced_core::Settings::default`. Nothing is stated of the settings it
/// gives, which Verus cannot look into.
#[verifier::external_body]
fn default_settings() -> Settings {
    Settings::default()
}

/// The main feature: the settings that iced is started with and the fonts it
/// preloads.
pub struct IcedPlugin {
    /// Settings
    pub settings: Settings,
    /// Fonts
    pub fonts: Vec<&'static [u8]>,
}

impl Default for IcedPlugin {
    fn default() -> (plugin: Self)
        ensures
            plugin.fonts@ == Seq::<&'static [u8]>::empty(),
    {
        IcedPlugin { settings: default_settings(), fonts: Vec::new() }
    }
}

impl IcedPlugin {
    /// Set the Iced settings.
    pub fn settings(self, settings: Settings) -> (plugin: Self)
        ensures
            plugin.settings == settings,
            plugin.fonts@ == self.fonts@,
    {
        let mut plugin = self;
        plugin.settings = settings;
        plugin
    }

    /// Set the fonts to preload in Iced.
    pub fn fonts(self, fonts: Vec<&'static [u8]>) -> (plugin: Self)
        ensures
            plugin.settings == self.settings,
            plugin.fonts@ == fonts@,
    {
        let mut plugin = self;
        plugin.fonts = fonts;
        plugin
    }
}

} // verus!
