use egui_style::FontFamily;
use egui_style::FontId;
use egui_style::FontSelection;
use egui_style::PersistedStyle;
use egui_style::Style;
use egui_style::TextStyle;
use egui_style::TextStyleMap;
use egui_style::Visuals;
use egui_style::default_text_styles;
use egui_style::persist::from_persisted;
use egui_style::persist::to_persisted;

fn assert_send_sync<T: Send + Sync>() {}

#[test]
fn style_impl_send_sync() {
    assert_send_sync::<Style>();
}

#[test]
fn body_resolves_to_default_body_font() {
    let style = Style::default();
    assert_eq!(TextStyle::Body.resolve(&style), FontId::proportional(1250));
}

#[test]
fn default_selection_resolves_body() {
    let style = Style::default();
    let via_default = FontSelection::Default.resolve(&style);
    let via_body = TextStyle::Body.resolve(&style);
    assert_eq!(via_default, via_body);
    assert_eq!(via_default, FontId::proportional(1250));
}

#[test]
fn text_style_override_changes_default_selection() {
    let mut style = Style::default();
    style.override_text_style = Some(TextStyle::Heading);
    assert_eq!(
        FontSelection::Default.resolve(&style),
        FontId::proportional(1800)
    );
}

#[test]
fn font_id_override_wins_over_text_style_override() {
    let mut style = Style::default();
    style.override_text_style = Some(TextStyle::Heading);
    style.override_font_id = Some(FontId::monospace(999));
    assert_eq!(FontSelection::Default.resolve(&style), FontId::monospace(999));
}

#[test]
fn explicit_font_id_selection_is_returned_verbatim() {
    let style = Style::default();
    let f = FontId::new(777, FontFamily::Name("fancy".to_string()));
    assert_eq!(FontSelection::FontId(f.clone()).resolve(&style), f);
}

#[test]
fn baseline_styles_resolve_in_both_presets() {
    let dark = Style::default();
    let mut light = Style::default();
    light.visuals = Visuals::light();
    for style in [&dark, &light] {
        assert_eq!(TextStyle::Small.resolve(style), FontId::proportional(900));
        assert_eq!(TextStyle::Body.resolve(style), FontId::proportional(1250));
        assert_eq!(TextStyle::Monospace.resolve(style), FontId::monospace(1200));
        assert_eq!(TextStyle::Button.resolve(style), FontId::proportional(1250));
        assert_eq!(TextStyle::Heading.resolve(style), FontId::proportional(1800));
    }
}

#[test]
fn missing_named_style_is_reported() {
    let style = Style::default();
    let missing = TextStyle::Name("footing".to_string());
    assert_eq!(missing.try_resolve(&style), None);
    match FontSelection::Style(missing.clone()).try_resolve(&style) {
        Err(key) => assert_eq!(key, missing),
        Ok(_) => panic!("a style the mapping lacks must not resolve"),
    }
}

#[test]
fn named_style_resolves_after_insert() {
    let mut style = Style::default();
    let key = TextStyle::Name("footing".to_string());
    let font = FontId::new(1050, FontFamily::Name("serif".to_string()));
    style.text_styles.insert(key.clone(), font.clone());
    assert_eq!(key.resolve(&style), font);
    assert_eq!(key.try_resolve(&style), Some(font));
}

#[test]
fn insert_replaces_entry_for_equal_key() {
    let mut map = TextStyleMap::new();
    map.insert(TextStyle::Name("a".to_string()), FontId::proportional(100));
    map.insert(TextStyle::Name("a".to_string()), FontId::proportional(200));
    map.insert(TextStyle::Name("b".to_string()), FontId::proportional(300));
    assert_eq!(map.len(), 2);
    assert_eq!(
        map.get(&TextStyle::Name("a".to_string())),
        Some(&FontId::proportional(200))
    );
    assert_eq!(
        map.get(&TextStyle::Name("b".to_string())),
        Some(&FontId::proportional(300))
    );
}

#[test]
fn text_styles_lists_every_key() {
    let mut style = Style::default();
    style
        .text_styles
        .insert(TextStyle::Name("extra".to_string()), FontId::proportional(100));
    let keys = style.text_styles();
    assert_eq!(keys.len(), 6);
    assert!(keys.contains(&TextStyle::Small));
    assert!(keys.contains(&TextStyle::Body));
    assert!(keys.contains(&TextStyle::Monospace));
    assert!(keys.contains(&TextStyle::Button));
    assert!(keys.contains(&TextStyle::Heading));
    assert!(keys.contains(&TextStyle::Name("extra".to_string())));
}

#[test]
fn default_text_styles_has_five_entries() {
    let map = default_text_styles();
    assert_eq!(map.len(), 5);
    assert!(map.contains_key(&TextStyle::Small));
    assert!(!map.contains_key(&TextStyle::Name("Small".to_string())));
}

#[test]
fn selection_from_conversions() {
    let sel: FontSelection = FontId::monospace(1200).into();
    assert_eq!(sel, FontSelection::FontId(FontId::monospace(1200)));
    let sel: FontSelection = TextStyle::Heading.into();
    assert_eq!(sel, FontSelection::Style(TextStyle::Heading));
    assert_eq!(FontSelection::default(), FontSelection::Default);
}

#[test]
fn persisted_round_trip_preserves_every_field() {
    let mut style = Style::default();
    style.override_text_style = Some(TextStyle::Name("custom".to_string()));
    style.animation_time = 250;
    style.compact_menu_style = false;
    style.visuals = Visuals::light();
    style
        .text_styles
        .insert(TextStyle::Name("custom".to_string()), FontId::proportional(2222));
    let copy = style.clone();
    let restored = from_persisted(to_persisted(style));
    assert_eq!(restored, copy);
}

#[test]
fn empty_record_loads_as_default_style() {
    let restored = from_persisted(PersistedStyle::default());
    assert_eq!(restored, Style::default());
}
