use egui_style::DebugOptions;
use egui_style::Rect;
use egui_style::ScrollAnimation;
use egui_style::ScrollStyle;
use egui_style::Spacing;
use egui_style::TimeRange;

#[test]
fn allocated_width_of_floating_style_is_its_allowance() {
    let mut style = ScrollStyle::floating();
    style.floating_allocated_width = 0;
    assert_eq!(style.allocated_width(), 0);
    style.floating_allocated_width = 450;
    assert_eq!(style.allocated_width(), 450);
}

#[test]
fn allocated_width_of_solid_style_sums_margins_and_bar() {
    let mut style = ScrollStyle::solid();
    style.bar_inner_margin = 400;
    style.bar_width = 600;
    style.bar_outer_margin = 0;
    assert_eq!(style.allocated_width(), 1000);
    style.bar_outer_margin = 250;
    assert_eq!(style.allocated_width(), 1250);
}

#[test]
fn scroll_presets_differ_as_documented() {
    let solid = ScrollStyle::solid();
    let thin = ScrollStyle::thin();
    let floating = ScrollStyle::floating();
    assert!(!solid.floating);
    assert!(thin.floating);
    assert!(floating.floating);
    assert_eq!(solid.bar_width, 600);
    assert_eq!(thin.bar_width, 1000);
    assert_eq!(thin.floating_allocated_width, 600);
    assert_eq!(floating.floating_allocated_width, 0);
    assert!(floating.foreground_color);
    // fields the presets do not name keep the solid values
    assert_eq!(thin.handle_min_length, solid.handle_min_length);
    assert_eq!(floating.bar_inner_margin, solid.bar_inner_margin);
    assert_eq!(ScrollStyle::default(), floating);
}

#[test]
fn scroll_animation_none_is_instant_for_any_distance() {
    let none = ScrollAnimation::none();
    assert_eq!(none.duration_for(0), 0);
    assert_eq!(none.duration_for(1), 0);
    assert_eq!(none.duration_for(u32::MAX), 0);
}

#[test]
fn scroll_animation_fixed_duration_ignores_distance() {
    let fixed = ScrollAnimation::duration(200);
    assert_eq!(fixed.duration_for(0), 200);
    assert_eq!(fixed.duration_for(123), 200);
    assert_eq!(fixed.duration_for(u32::MAX), 200);
}

#[test]
fn scroll_animation_speed_mode_clamps_into_range() {
    let anim = ScrollAnimation::default();
    assert_eq!(anim, ScrollAnimation::new(100000, TimeRange::new(100, 300)));
    // 50 points at 1000 points per second would take 50 ms: below the range
    assert_eq!(anim.duration_for(5000), 100);
    // 200 points take 200 ms: inside the range
    assert_eq!(anim.duration_for(20000), 200);
    // 1000 points would take a full second: above the range
    assert_eq!(anim.duration_for(100000), 300);
}

#[test]
fn icon_rectangles_center_the_icons() {
    let spacing = Spacing::default();
    let row = Rect { min_x: 0, min_y: 0, max_x: 10000, max_y: 2000 };
    let (small, big) = spacing.icon_rectangles(row);
    // the big icon (side 1400) is flush left and vertically centered
    assert_eq!(big, Rect { min_x: 0, min_y: 300, max_x: 1400, max_y: 1700 });
    // the small icon (side 800) is centered on the big one
    assert_eq!(small, Rect { min_x: 300, min_y: 600, max_x: 1100, max_y: 1400 });
}

#[test]
fn debug_options_default_flags() {
    let debug = DebugOptions::default();
    assert!(!debug.debug_on_hover);
    assert!(!debug.show_interactive_widgets);
    assert!(debug.show_unaligned);
}
