use bevy_iced::plugin::IcedPlugin;

static FONT_A: &[u8] = &[1, 2, 3];
static FONT_B: &[u8] = &[4];

#[test]
fn default_plugin_preloads_no_font() {
    let plugin = IcedPlugin::default();
    assert!(plugin.fonts.is_empty());
    assert_eq!(plugin.settings.default_text_size.0, 16.0);
}

#[test]
fn fonts_keeps_settings() {
    let mut settings = iced_core::Settings::default();
    settings.default_text_size = iced_core::Pixels(40.0);
    let plugin = IcedPlugin::default().settings(settings).fonts(vec![FONT_A, FONT_B]);
    assert_eq!(plugin.fonts, vec![FONT_A, FONT_B]);
    assert_eq!(plugin.settings.default_text_size.0, 40.0);
}

#[test]
fn settings_keeps_fonts() {
    let mut settings = iced_core::Settings::default();
    settings.antialiasing = false;
    let plugin = IcedPlugin::default().fonts(vec![FONT_B]).settings(settings);
    assert_eq!(plugin.fonts, vec![FONT_B]);
    assert!(!plugin.settings.antialiasing);
}
