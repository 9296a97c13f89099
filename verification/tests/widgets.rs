use egui_style::Color32;
use egui_style::NumericColorSpace;
use egui_style::Response;
use egui_style::Style;
use egui_style::Visuals;
use egui_style::Widgets;

fn idle_response() -> Response {
    Response {
        is_interactive: true,
        pointer_down_on_this: false,
        has_focus: false,
        just_clicked: false,
        is_hovered: false,
        is_highlighted: false,
    }
}

#[test]
fn focused_and_hovered_classifies_as_active() {
    let style = Style::default();
    let response = Response { has_focus: true, is_hovered: true, ..idle_response() };
    assert_eq!(*style.interact(&response), style.visuals.widgets.active);
}

#[test]
fn hovered_alone_classifies_as_hovered() {
    let style = Style::default();
    let response = Response { is_hovered: true, ..idle_response() };
    assert_eq!(*style.interact(&response), style.visuals.widgets.hovered);
    let highlighted = Response { is_highlighted: true, ..idle_response() };
    assert_eq!(*style.interact(&highlighted), style.visuals.widgets.hovered);
}

#[test]
fn idle_interactive_classifies_as_inactive() {
    let style = Style::default();
    assert_eq!(*style.interact(&idle_response()), style.visuals.widgets.inactive);
}

#[test]
fn noninteractive_wins_over_every_other_flag() {
    let style = Style::default();
    let response = Response {
        is_interactive: false,
        pointer_down_on_this: true,
        has_focus: true,
        just_clicked: true,
        is_hovered: true,
        is_highlighted: true,
    };
    assert_eq!(*style.interact(&response), style.visuals.widgets.noninteractive);
}

#[test]
fn selectable_resolution_recolors_fills_and_fg() {
    let style = Style::default();
    let response = Response { is_hovered: true, ..idle_response() };
    let unselected = style.interact_selectable(&response, false);
    let selected = style.interact_selectable(&response, true);
    assert_eq!(unselected, style.visuals.widgets.hovered);
    assert_eq!(selected.weak_bg_fill, style.visuals.selection.bg_fill);
    assert_eq!(selected.bg_fill, style.visuals.selection.bg_fill);
    assert_eq!(selected.fg_stroke, style.visuals.selection.stroke);
    assert_eq!(selected.bg_stroke, unselected.bg_stroke);
    assert_eq!(selected.corner_radius, unselected.corner_radius);
    assert_eq!(selected.expansion, unselected.expansion);
}

#[test]
fn preset_bg_fills_are_never_fully_transparent() {
    for widgets in [Widgets::dark(), Widgets::light()] {
        for entry in [
            widgets.noninteractive,
            widgets.inactive,
            widgets.hovered,
            widgets.active,
            widgets.open,
        ] {
            assert_ne!(entry.bg_fill, Color32::transparent());
        }
    }
}

#[test]
fn dark_theme_text_colors() {
    let visuals = Visuals::dark();
    assert_eq!(visuals.text_color(), Color32::from_gray(140));
    assert_eq!(visuals.strong_text_color(), Color32::white());
    assert_eq!(visuals.text_edit_bg_color(), Color32::from_gray(10));
}

#[test]
fn override_text_color_wins() {
    let mut visuals = Visuals::dark();
    visuals.override_text_color = Some(Color32::from_rgb(1, 2, 3));
    assert_eq!(visuals.text_color(), Color32::from_rgb(1, 2, 3));
    // the weak color follows the override, scaled by weak_text_alpha (153)
    assert_eq!(
        visuals.weak_text_color(),
        Color32::from_rgba_premultiplied(1, 1, 2, 153)
    );
}

#[test]
fn weak_text_color_scales_alpha() {
    let visuals = Visuals::dark();
    // text color is gray 140, weak_text_alpha is 153: each channel becomes
    // (v * 153 + 127) / 255.
    assert_eq!(
        visuals.weak_text_color(),
        Color32::from_rgba_premultiplied(84, 84, 84, 153)
    );
}

#[test]
fn disable_scales_every_channel() {
    let visuals = Visuals::dark();
    let c = Color32::from_rgba_premultiplied(200, 100, 50, 255);
    // disabled_alpha is 128: each channel becomes (v * 128 + 127) / 255.
    assert_eq!(
        visuals.disable(c),
        Color32::from_rgba_premultiplied(100, 50, 25, 128)
    );
}

#[test]
fn gray_out_tints_toward_weak_bg() {
    let visuals = Visuals::dark();
    // weak bg of the noninteractive state is gray 27; an opaque red is
    // halved and gets half the target added per channel.
    assert_eq!(
        visuals.gray_out(Color32::from_rgb(255, 0, 0)),
        Color32::from_rgba_premultiplied(140, 13, 13, 255)
    );
}

#[test]
fn light_theme_is_a_diff_of_dark() {
    let dark = Visuals::dark();
    let light = Visuals::light();
    assert!(dark.dark_mode);
    assert!(!light.dark_mode);
    assert_eq!(light.hyperlink_color, Color32::from_rgb(0, 155, 255));
    assert_eq!(light.extreme_bg_color, Color32::from_gray(255));
    // fields the light theme does not override keep their dark values
    assert_eq!(light.window_corner_radius, dark.window_corner_radius);
    assert_eq!(light.window_highlight_topmost, dark.window_highlight_topmost);
    assert_eq!(light.resize_corner_size, dark.resize_corner_size);
    assert_eq!(light.disabled_alpha, dark.disabled_alpha);
}

#[test]
fn numeric_color_space_toggle() {
    let mut space = NumericColorSpace::GammaByte;
    assert_eq!(space.display_name(), "U8");
    assert!(!space.toggle_button_ui(false));
    assert_eq!(space, NumericColorSpace::GammaByte);
    assert!(space.toggle_button_ui(true));
    assert_eq!(space, NumericColorSpace::Linear);
    assert_eq!(space.display_name(), "F");
    assert_eq!(space.tooltip(), "Showing color values in 0-1 linear space");
    assert!(space.toggle_button_ui(true));
    assert_eq!(space, NumericColorSpace::GammaByte);
}
