//! Sizes and distances between widgets, and the scroll-bar and
//! scroll-animation presets.

use vstd::prelude::*;

use crate::geometry::Margin;
use crate::geometry::Rect;
use crate::geometry::Vec2;

verus! {

/// Spacing and visuals of a scroll area's bars.
///
/// Three presets exist: [`ScrollStyle::solid`], [`ScrollStyle::thin`] and
/// [`ScrollStyle::floating`].
#[derive(Clone, Copy, Debug, PartialEq, Eq, Structural, Hash)]
pub struct ScrollStyle {
    /// If true, the bars float above the content and allocate no space of
    /// their own (they also change color); if false, they claim
    /// `allocated_width` from the content.
    pub floating: bool,
    /// Width of a bar at its widest, in centipoints.
    pub bar_width: u32,
    /// The handle is at least this long, in centipoints.
    pub handle_min_length: u32,
    /// Margin between content and bar, in centipoints.
    pub bar_inner_margin: u32,
    /// Margin between bar and the outer container, in centipoints; only
    /// meaningful for non-floating bars.
    pub bar_outer_margin: u32,
    /// Width of a floating bar the user is not hovering, in centipoints.
    pub floating_width: u32,
    /// How much space a floating bar allocates anyway, in centipoints;
    /// normally zero.
    pub floating_allocated_width: u32,
    /// If true, use colors with more contrast; good for floating bars.
    pub foreground_color: bool,
    /// Background opacity when neither scrolling nor hovering; floating
    /// bars only.
    pub dormant_background_opacity: u8,
    /// Background opacity when hovering the scroll area; floating bars only.
    pub active_background_opacity: u8,
    /// Background opacity when hovering the bars; floating bars only.
    pub interact_background_opacity: u8,
    /// Handle opacity when neither scrolling nor hovering; floating bars
    /// only.
    pub dormant_handle_opacity: u8,
    /// Handle opacity when hovering the scroll area; floating bars only.
    pub active_handle_opacity: u8,
    /// Handle opacity when hovering the bars; floating bars only.
    pub interact_handle_opacity: u8,
}

impl ScrollStyle {
    /// Solid bars that always use up space.
    #[verifier::allow_in_spec]
    pub fn solid() -> ScrollStyle
        returns
            (ScrollStyle {
                floating: false,
                bar_width: 600,
                handle_min_length: 1200,
                bar_inner_margin: 400,
                bar_outer_margin: 0,
                floating_width: 200,
                floating_allocated_width: 0,
                foreground_color: false,
                dormant_background_opacity: 0,
                active_background_opacity: 102,
                interact_background_opacity: 179,
                dormant_handle_opacity: 0,
                active_handle_opacity: 153,
                interact_handle_opacity: 255,
            }),
    {
        ScrollStyle {
            floating: false,
            bar_width: 600,
            handle_min_length: 1200,
            bar_inner_margin: 400,
            bar_outer_margin: 0,
            floating_width: 200,
            floating_allocated_width: 0,
            foreground_color: false,
            dormant_background_opacity: 0,
            active_background_opacity: 102,
            interact_background_opacity: 179,
            dormant_handle_opacity: 0,
            active_handle_opacity: 153,
            interact_handle_opacity: 255,
        }
    }

    /// Thin floating bars that are always faintly visible and expand on
    /// hover; everything not named here is as in the solid preset.
    pub fn thin() -> (s: ScrollStyle)
        ensures
            s == (ScrollStyle {
                floating: true,
                bar_width: 1000,
                floating_allocated_width: 600,
                foreground_color: false,
                dormant_background_opacity: 255,
                dormant_handle_opacity: 255,
                active_background_opacity: 255,
                active_handle_opacity: 255,
                interact_background_opacity: 153,
                interact_handle_opacity: 153,
                ..ScrollStyle::solid()
            }),
    {
        ScrollStyle {
            floating: true,
            bar_width: 1000,
            floating_allocated_width: 600,
            foreground_color: false,
            dormant_background_opacity: 255,
            dormant_handle_opacity: 255,
            active_background_opacity: 255,
            active_handle_opacity: 255,
            // translucent when expanded, so the content shows through
            interact_background_opacity: 153,
            interact_handle_opacity: 153,
            ..ScrollStyle::solid()
        }
    }

    /// No bars until the scroll area is hovered; they then appear faintly
    /// and expand when the bars themselves are hovered. Everything not
    /// named here is as in the solid preset.
    pub fn floating() -> (s: ScrollStyle)
        ensures
            s == (ScrollStyle {
                floating: true,
                bar_width: 1000,
                foreground_color: true,
                floating_allocated_width: 0,
                dormant_background_opacity: 0,
                dormant_handle_opacity: 0,
                ..ScrollStyle::solid()
            }),
    {
        ScrollStyle {
            floating: true,
            bar_width: 1000,
            foreground_color: true,
            floating_allocated_width: 0,
            dormant_background_opacity: 0,
            dormant_handle_opacity: 0,
            ..ScrollStyle::solid()
        }
    }

    /// The space the layout must reserve for a bar: nothing but the
    /// floating allowance for floating bars, else margins plus bar width.
    pub open spec fn spec_allocated_width(self) -> int {
        if self.floating {
            self.floating_allocated_width as int
        } else {
            self.bar_inner_margin + self.bar_width + self.bar_outer_margin
        }
    }

    /// Width of a solid vertical bar (or height of a horizontal one) at its
    /// widest.
    pub fn allocated_width(&self) -> (w: u32)
        requires
            self.bar_inner_margin + self.bar_width + self.bar_outer_margin <= u32::MAX,
        ensures
            w == self.spec_allocated_width(),
    {
        if self.floating {
            self.floating_allocated_width
        } else {
            self.bar_inner_margin + self.bar_width + self.bar_outer_margin
        }
    }
}

impl Default for ScrollStyle {
    /// The floating preset.
    fn default() -> (s: ScrollStyle)
        ensures
            s == (ScrollStyle {
                floating: true,
                bar_width: 1000,
                foreground_color: true,
                floating_allocated_width: 0,
                dormant_background_opacity: 0,
                dormant_handle_opacity: 0,
                ..ScrollStyle::solid()
            }),
    {
        ScrollStyle::floating()
    }
}

/// An inclusive range of durations, in milliseconds.
#[derive(Clone, Copy, Debug, PartialEq, Eq, Structural, Hash)]
pub struct TimeRange {
    pub min: u32,
    pub max: u32,
}

impl TimeRange {
    #[verifier::allow_in_spec]
    pub fn new(min: u32, max: u32) -> TimeRange
        returns
            (TimeRange { min, max }),
    {
        TimeRange { min, max }
    }
}

/// How programmatic scrolling is animated: a speed, and a duration range
/// the speed-derived duration is clamped into.
#[derive(Clone, Copy, Debug, PartialEq, Eq, Structural, Hash)]
pub struct ScrollAnimation {
    /// Scroll speed in centipoints per second; `None` scrolls any distance
    /// in no time at all.
    pub points_per_second: Option<u32>,
    /// The duration the animation is clamped into, in milliseconds.
    pub duration: TimeRange,
}

/// The duration of scrolling over `distance` centipoints: the time the
/// configured speed would take, clamped into the configured range. A speed
/// of zero takes the longest the range allows; no speed at all takes the
/// shortest.
pub open spec fn scroll_duration_ms(anim: ScrollAnimation, distance: u32) -> int {
    let raw = match anim.points_per_second {
        Option::None => 0,
        Option::Some(p) => if p == 0 {
            anim.duration.max as int
        } else {
            distance as int * 1000 / p as int
        },
    };
    if raw < anim.duration.min {
        anim.duration.min as int
    } else if raw > anim.duration.max {
        anim.duration.max as int
    } else {
        raw
    }
}

impl ScrollAnimation {
    /// An animation with the given speed and duration range.
    #[verifier::allow_in_spec]
    pub fn new(points_per_second: u32, duration: TimeRange) -> ScrollAnimation
        returns
            (ScrollAnimation { points_per_second: Option::Some(points_per_second), duration }),
    {
        ScrollAnimation { points_per_second: Option::Some(points_per_second), duration }
    }

    /// No animation: scroll instantly.
    #[verifier::allow_in_spec]
    pub fn none() -> ScrollAnimation
        returns
            (ScrollAnimation {
                points_per_second: Option::None,
                duration: TimeRange { min: 0, max: 0 },
            }),
    {
        ScrollAnimation { points_per_second: Option::None, duration: TimeRange { min: 0, max: 0 } }
    }

    /// A fixed duration of `t` milliseconds, whatever the distance.
    #[verifier::allow_in_spec]
    pub fn duration(t: u32) -> ScrollAnimation
        returns
            (ScrollAnimation {
                points_per_second: Option::None,
                duration: TimeRange { min: t, max: t },
            }),
    {
        ScrollAnimation { points_per_second: Option::None, duration: TimeRange { min: t, max: t } }
    }

    /// How long scrolling over `distance` centipoints takes, in
    /// milliseconds.
    pub fn duration_for(&self, distance: u32) -> (d: u32)
        ensures
            d == scroll_duration_ms(*self, distance),
    {
        let raw: u64 = match self.points_per_second {
            Option::None => 0,
            Option::Some(p) => if p == 0 {
                self.duration.max as u64
            } else {
                distance as u64 * 1000 / p as u64
            },
        };
        if raw < self.duration.min as u64 {
            self.duration.min
        } else if raw > self.duration.max as u64 {
            self.duration.max
        } else {
            raw as u32
        }
    }
}

impl Default for ScrollAnimation {
    /// A speed of a thousand points per second, clamped between a tenth of
    /// a second and three tenths.
    fn default() -> (a: ScrollAnimation)
        ensures
            a == ScrollAnimation::new(100000, TimeRange::new(100, 300)),
    {
        ScrollAnimation::new(100000, TimeRange::new(100, 300))
    }
}

/// Scrolling without animation takes no time, whatever the distance.
pub proof fn lemma_scroll_none_is_instant(distance: u32)
    ensures
        scroll_duration_ms(ScrollAnimation::none(), distance) == 0,
{
}

/// A fixed-duration animation takes exactly its duration, whatever the
/// distance.
pub proof fn lemma_scroll_fixed_duration(t: u32, distance: u32)
    ensures
        scroll_duration_ms(ScrollAnimation::duration(t), distance) == t,
{
}

/// Sizes of and distances between widgets, in centipoints unless a field
/// says otherwise.
#[derive(Clone, Copy, Debug, PartialEq, Eq, Structural, Hash)]
pub struct Spacing {
    /// Spacing inserted between two widgets.
    pub item_spacing: Vec2,
    /// Margins within a window frame, in whole points.
    pub window_margin: Margin,
    /// A button's size is its text's size plus this on each side.
    pub button_padding: Vec2,
    /// Margins within a menu frame, in whole points.
    pub menu_margin: Margin,
    /// Indentation of collapsing regions and the like.
    pub indent: u32,
    /// Minimum size of a small interactive widget; the height is the
    /// default height of buttons and sliders.
    pub interact_size: Vec2,
    /// Default width of a slider.
    pub slider_width: u32,
    /// Default rail height of a slider.
    pub slider_rail_height: u32,
    /// Default (minimum) width of a combo box.
    pub combo_width: u32,
    /// Default width of a text edit.
    pub text_edit_width: u32,
    /// Width and height of the outer part of the icon at the start of a
    /// checkbox or radio button (the box of the checkbox).
    pub icon_width: u32,
    /// Width and height of the inner part of that icon (the check mark).
    pub icon_width_inner: u32,
    /// Spacing between that icon and its text.
    pub icon_spacing: u32,
    /// The size a new area lays itself out in before its contents are
    /// known.
    pub default_area_size: Vec2,
    /// Width of a tooltip.
    pub tooltip_width: u32,
    /// Menu items longer than this wrap to a new line.
    pub menu_width: u32,
    /// Horizontal distance between a menu and a submenu.
    pub menu_spacing: u32,
    /// End indented regions with a horizontal line.
    pub indent_ends_with_horizontal_line: bool,
    /// Height of a combo box before it shows scroll bars.
    pub combo_height: u32,
    /// Spacing of scroll areas.
    pub scroll: ScrollStyle,
}

/// The default spacing.
pub open spec fn default_spacing() -> Spacing {
    Spacing {
        item_spacing: Vec2::new(800, 300),
        window_margin: Margin::same(6),
        menu_margin: Margin::same(6),
        button_padding: Vec2::new(400, 100),
        indent: 1800,
        interact_size: Vec2::new(4000, 1800),
        slider_width: 10000,
        slider_rail_height: 800,
        combo_width: 10000,
        text_edit_width: 28000,
        icon_width: 1400,
        icon_width_inner: 800,
        icon_spacing: 400,
        default_area_size: Vec2::new(60000, 40000),
        tooltip_width: 50000,
        menu_width: 40000,
        menu_spacing: 200,
        combo_height: 20000,
        scroll: ScrollStyle {
            floating: true,
            bar_width: 1000,
            foreground_color: true,
            floating_allocated_width: 0,
            dormant_background_opacity: 0,
            dormant_handle_opacity: 0,
            ..ScrollStyle::solid()
        },
        indent_ends_with_horizontal_line: false,
    }
}

impl Default for Spacing {
    fn default() -> (s: Spacing)
        ensures
            s == default_spacing(),
    {
        Spacing {
            item_spacing: Vec2::new(800, 300),
            window_margin: Margin::same(6),
            menu_margin: Margin::same(6),
            button_padding: Vec2::new(400, 100),
            indent: 1800,
            interact_size: Vec2::new(4000, 1800),
            slider_width: 10000,
            slider_rail_height: 800,
            combo_width: 10000,
            text_edit_width: 28000,
            icon_width: 1400,
            icon_width_inner: 800,
            icon_spacing: 400,
            default_area_size: Vec2::new(60000, 40000),
            tooltip_width: 50000,
            menu_width: 40000,
            menu_spacing: 200,
            combo_height: 20000,
            scroll: ScrollStyle::default(),
            indent_ends_with_horizontal_line: false,
        }
    }
}

impl Spacing {
    /// Where the small (inner) and big (outer) icon of a checkbox or radio
    /// button land inside `rect`: the big icon is `icon_width` square,
    /// flush with the left edge and vertically centered; the small icon is
    /// `icon_width_inner` square and centered on the big one.
    pub open spec fn icon_rectangles_spec(self, rect: Rect) -> (Rect, Rect) {
        let w = self.icon_width as int;
        let inner = self.icon_width_inner as int;
        let cx = rect.min_x + w / 2;
        let cy = rect.min_y + (rect.max_y - rect.min_y) / 2;
        let big = Rect {
            min_x: (cx - w / 2) as i32,
            min_y: (cy - w / 2) as i32,
            max_x: (cx + (w - w / 2)) as i32,
            max_y: (cy + (w - w / 2)) as i32,
        };
        let scx = big.min_x + (big.max_x - big.min_x) / 2;
        let scy = big.min_y + (big.max_y - big.min_y) / 2;
        let small = Rect {
            min_x: (scx - inner / 2) as i32,
            min_y: (scy - inner / 2) as i32,
            max_x: (scx + (inner - inner / 2)) as i32,
            max_y: (scy + (inner - inner / 2)) as i32,
        };
        (small, big)
    }

    /// Returns the small and the big icon rectangle for `rect`.
    pub fn icon_rectangles(&self, rect: Rect) -> (r: (Rect, Rect))
        requires
            self.icon_width <= i32::MAX,
            self.icon_width_inner <= i32::MAX,
            rect.min_y <= rect.max_y,
            rect.min_x + self.icon_width + self.icon_width_inner <= i32::MAX,
            rect.min_x - self.icon_width_inner >= i32::MIN,
            rect.min_y - self.icon_width - self.icon_width_inner >= i32::MIN,
            rect.max_y + self.icon_width + self.icon_width_inner <= i32::MAX,
        ensures
            r == self.icon_rectangles_spec(rect),
    {
        let icon_width = self.icon_width;
        let big_icon_rect = Rect::from_center_size(
            rect.min_x + (icon_width / 2) as i32,
            rect.center_y(),
            icon_width,
            icon_width,
        );
        let small_icon_rect = Rect::from_center_size(
            big_icon_rect.center_x(),
            big_icon_rect.center_y(),
            self.icon_width_inner,
            self.icon_width_inner,
        );
        (small_icon_rect, big_icon_rect)
    }
}

} // verus!
