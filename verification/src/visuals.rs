//! Widget interaction states and the paint parameters resolved for them.
//!
//! A widget's per-frame [`Response`] is classified into exactly one
//! [`WidgetState`]; a [`Widgets`] set carries one [`WidgetVisuals`] entry per
//! state. Classification is a pure function with a strict precedence:
//! noninteractive first, then active, then hovered, then inactive. The
//! `Open` state is never produced by the classifier: a caller assigns it
//! explicitly for a widget with an open menu beneath it.

use vstd::prelude::*;

use crate::color::Color32;
use crate::color::Shadow;
use crate::color::Stroke;
use crate::color::gamma_multiply_u8;
use crate::color::gamma_scaled;
use crate::color::tint_color_towards;
use crate::color::tinted_towards;
use crate::geometry::CornerRadius;
use crate::interaction::Response;

verus! {

/// The five interaction states a widget can be painted in.
#[derive(Clone, Copy, Debug, PartialEq, Eq, Structural, Hash)]
pub enum WidgetState {
    /// The widget accepts no interaction.
    Noninteractive,
    /// Interactive and idle.
    Inactive,
    /// Hovered or highlighted.
    Hovered,
    /// Pointer held down on it, focused, or just clicked.
    Active,
    /// A widget with an open popup beneath it; assigned by callers, never
    /// by the classifier.
    Open,
}

/// Classifies a response into a widget state. The order of the tests is the
/// precedence: a response that is both focused and hovered is `Active`,
/// never `Hovered`.
pub open spec fn classify(r: Response) -> WidgetState {
    if !r.is_interactive {
        WidgetState::Noninteractive
    } else if r.pointer_down_on_this || r.has_focus || r.just_clicked {
        WidgetState::Active
    } else if r.is_hovered || r.is_highlighted {
        WidgetState::Hovered
    } else {
        WidgetState::Inactive
    }
}

/// Active takes precedence over hovered: a response that satisfies both the
/// "active" predicates (here: focus) and the "hovered" predicates still
/// classifies as `Active`, never as `Hovered`.
pub proof fn lemma_active_precedes_hovered(r: Response)
    requires
        r.is_interactive,
        r.pointer_down_on_this || r.has_focus || r.just_clicked,
    ensures
        classify(r) is Active,
{
}

/// Hovering only reaches the `Hovered` state when none of the "active"
/// predicates hold.
pub proof fn lemma_hovered_needs_idle_widget(r: Response)
    requires
        r.is_interactive,
        !r.pointer_down_on_this && !r.has_focus && !r.just_clicked,
        r.is_hovered || r.is_highlighted,
    ensures
        classify(r) is Hovered,
{
}

/// A response that is not interactive classifies as `Noninteractive`, no
/// matter which other flags are set.
pub proof fn lemma_noninteractive_wins(r: Response)
    requires
        !r.is_interactive,
    ensures
        classify(r) is Noninteractive,
{
}

/// The paint parameters for one widget state.
#[derive(Clone, Copy, Debug, PartialEq, Eq, Structural, Hash)]
pub struct WidgetVisuals {
    /// Background of widgets that must have one (sliders, checkboxes).
    /// Never the fully transparent color in a well-formed theme.
    pub bg_fill: Color32,
    /// Background of widgets that only optionally have one (buttons).
    /// May be fully transparent.
    pub weak_bg_fill: Color32,
    /// Stroke of the surrounding frame.
    pub bg_stroke: Stroke,
    /// Corner radius of the frame.
    pub corner_radius: CornerRadius,
    /// Stroke of the interactive part: button text, slider grab, check-mark.
    pub fg_stroke: Stroke,
    /// How much larger than its allotted space the frame is painted, in
    /// centipoints; may be negative.
    pub expansion: i32,
}

impl WidgetVisuals {
    /// The text color for this state: the foreground stroke's color.
    pub fn text_color(&self) -> (c: Color32)
        ensures
            c == self.fg_stroke.color,
    {
        self.fg_stroke.color
    }

    /// The corner radius, under the name an earlier release used.
    pub fn rounding(&self) -> (r: CornerRadius)
        ensures
            r == self.corner_radius,
    {
        self.corner_radius
    }
}

/// The fill and stroke of selected text and selected items.
#[derive(Clone, Copy, Debug, PartialEq, Eq, Structural, Hash)]
pub struct Selection {
    pub bg_fill: Color32,
    pub stroke: Stroke,
}

/// The selection colors of the dark theme.
pub open spec fn dark_selection() -> Selection {
    Selection {
        bg_fill: Color32::from_rgb(0, 92, 128),
        stroke: Stroke::new(100, Color32::from_rgb(192, 222, 255)),
    }
}

/// The selection colors of the light theme.
pub open spec fn light_selection() -> Selection {
    Selection {
        bg_fill: Color32::from_rgb(144, 209, 255),
        stroke: Stroke::new(100, Color32::from_rgb(0, 83, 125)),
    }
}

impl Selection {
    pub(crate) fn dark() -> (s: Selection)
        ensures
            s == dark_selection(),
    {
        Selection {
            bg_fill: Color32::from_rgb(0, 92, 128),
            stroke: Stroke::new(100, Color32::from_rgb(192, 222, 255)),
        }
    }

    pub(crate) fn light() -> (s: Selection)
        ensures
            s == light_selection(),
    {
        Selection {
            bg_fill: Color32::from_rgb(144, 209, 255),
            stroke: Stroke::new(100, Color32::from_rgb(0, 83, 125)),
        }
    }
}

impl Default for Selection {
    /// The dark theme's selection colors.
    fn default() -> (s: Selection)
        ensures
            s == dark_selection(),
    {
        Selection::dark()
    }
}

/// One `WidgetVisuals` entry per interaction state.
#[derive(Clone, Copy, Debug, PartialEq, Eq, Structural, Hash)]
pub struct Widgets {
    /// For a widget you cannot interact with: window outlines, window
    /// backgrounds and normal text color live here.
    pub noninteractive: WidgetVisuals,
    /// For an interactive widget at rest.
    pub inactive: WidgetVisuals,
    /// For an interactive widget that is hovered or highlighted.
    pub hovered: WidgetVisuals,
    /// For an interactive widget being clicked or dragged.
    pub active: WidgetVisuals,
    /// For a button with an open menu beneath it.
    pub open: WidgetVisuals,
}

impl Widgets {
    /// The entry this set carries for the given state.
    pub open spec fn entry(self, s: WidgetState) -> WidgetVisuals {
        match s {
            WidgetState::Noninteractive => self.noninteractive,
            WidgetState::Inactive => self.inactive,
            WidgetState::Hovered => self.hovered,
            WidgetState::Active => self.active,
            WidgetState::Open => self.open,
        }
    }

    /// No state's mandatory background fill is the fully transparent color.
    pub open spec fn bg_fills_visible(self) -> bool {
        &&& !self.noninteractive.bg_fill.is_transparent()
        &&& !self.inactive.bg_fill.is_transparent()
        &&& !self.hovered.bg_fill.is_transparent()
        &&& !self.active.bg_fill.is_transparent()
        &&& !self.open.bg_fill.is_transparent()
    }

    /// The entry to paint a widget with, given its interaction response:
    /// the entry of the classified state.
    pub fn style(&self, response: &Response) -> (r: &WidgetVisuals)
        ensures
            *r == self.entry(classify(*response)),
    {
        if !response.is_interactive {
            &self.noninteractive
        } else if response.pointer_down_on_this || response.has_focus || response.just_clicked {
            &self.active
        } else if response.is_hovered || response.is_highlighted {
            &self.hovered
        } else {
            &self.inactive
        }
    }
}

/// The widget visuals of the dark theme.
pub open spec fn dark_widgets() -> Widgets {
    Widgets {
        noninteractive: WidgetVisuals {
            weak_bg_fill: Color32::from_gray(27),
            bg_fill: Color32::from_gray(27),
            bg_stroke: Stroke::new(100, Color32::from_gray(60)),
            fg_stroke: Stroke::new(100, Color32::from_gray(140)),
            corner_radius: CornerRadius::same(2),
            expansion: 0,
        },
        inactive: WidgetVisuals {
            weak_bg_fill: Color32::from_gray(60),
            bg_fill: Color32::from_gray(60),
            bg_stroke: Stroke { width: 0, color: Color32 { r: 0, g: 0, b: 0, a: 0 } },
            fg_stroke: Stroke::new(100, Color32::from_gray(180)),
            corner_radius: CornerRadius::same(2),
            expansion: 0,
        },
        hovered: WidgetVisuals {
            weak_bg_fill: Color32::from_gray(70),
            bg_fill: Color32::from_gray(70),
            bg_stroke: Stroke::new(100, Color32::from_gray(150)),
            fg_stroke: Stroke::new(150, Color32::from_gray(240)),
            corner_radius: CornerRadius::same(3),
            expansion: 100,
        },
        active: WidgetVisuals {
            weak_bg_fill: Color32::from_gray(55),
            bg_fill: Color32::from_gray(55),
            bg_stroke: Stroke::new(100, Color32::white()),
            fg_stroke: Stroke::new(200, Color32::white()),
            corner_radius: CornerRadius::same(2),
            expansion: 100,
        },
        open: WidgetVisuals {
            weak_bg_fill: Color32::from_gray(45),
            bg_fill: Color32::from_gray(27),
            bg_stroke: Stroke::new(100, Color32::from_gray(60)),
            fg_stroke: Stroke::new(100, Color32::from_gray(210)),
            corner_radius: CornerRadius::same(2),
            expansion: 0,
        },
    }
}

/// The widget visuals of the light theme.
pub open spec fn light_widgets() -> Widgets {
    Widgets {
        noninteractive: WidgetVisuals {
            weak_bg_fill: Color32::from_gray(248),
            bg_fill: Color32::from_gray(248),
            bg_stroke: Stroke::new(100, Color32::from_gray(190)),
            fg_stroke: Stroke::new(100, Color32::from_gray(80)),
            corner_radius: CornerRadius::same(2),
            expansion: 0,
        },
        inactive: WidgetVisuals {
            weak_bg_fill: Color32::from_gray(230),
            bg_fill: Color32::from_gray(230),
            bg_stroke: Stroke { width: 0, color: Color32 { r: 0, g: 0, b: 0, a: 0 } },
            fg_stroke: Stroke::new(100, Color32::from_gray(60)),
            corner_radius: CornerRadius::same(2),
            expansion: 0,
        },
        hovered: WidgetVisuals {
            weak_bg_fill: Color32::from_gray(220),
            bg_fill: Color32::from_gray(220),
            bg_stroke: Stroke::new(100, Color32::from_gray(105)),
            fg_stroke: Stroke::new(150, Color32::black()),
            corner_radius: CornerRadius::same(3),
            expansion: 100,
        },
        active: WidgetVisuals {
            weak_bg_fill: Color32::from_gray(165),
            bg_fill: Color32::from_gray(165),
            bg_stroke: Stroke::new(100, Color32::black()),
            fg_stroke: Stroke::new(200, Color32::black()),
            corner_radius: CornerRadius::same(2),
            expansion: 100,
        },
        open: WidgetVisuals {
            weak_bg_fill: Color32::from_gray(220),
            bg_fill: Color32::from_gray(220),
            bg_stroke: Stroke::new(100, Color32::from_gray(160)),
            fg_stroke: Stroke::new(100, Color32::black()),
            corner_radius: CornerRadius::same(2),
            expansion: 0,
        },
    }
}

impl Widgets {
    /// The dark theme's widget visuals.
    pub fn dark() -> (w: Widgets)
        ensures
            w == dark_widgets(),
    {
        Widgets {
            noninteractive: WidgetVisuals {
                weak_bg_fill: Color32::from_gray(27),
                bg_fill: Color32::from_gray(27),
                bg_stroke: Stroke::new(100, Color32::from_gray(60)),
                fg_stroke: Stroke::new(100, Color32::from_gray(140)),
                corner_radius: CornerRadius::same(2),
                expansion: 0,
            },
            inactive: WidgetVisuals {
                weak_bg_fill: Color32::from_gray(60),
                bg_fill: Color32::from_gray(60),
                bg_stroke: Stroke::default(),
                fg_stroke: Stroke::new(100, Color32::from_gray(180)),
                corner_radius: CornerRadius::same(2),
                expansion: 0,
            },
            hovered: WidgetVisuals {
                weak_bg_fill: Color32::from_gray(70),
                bg_fill: Color32::from_gray(70),
                bg_stroke: Stroke::new(100, Color32::from_gray(150)),
                fg_stroke: Stroke::new(150, Color32::from_gray(240)),
                corner_radius: CornerRadius::same(3),
                expansion: 100,
            },
            active: WidgetVisuals {
                weak_bg_fill: Color32::from_gray(55),
                bg_fill: Color32::from_gray(55),
                bg_stroke: Stroke::new(100, Color32::white()),
                fg_stroke: Stroke::new(200, Color32::white()),
                corner_radius: CornerRadius::same(2),
                expansion: 100,
            },
            open: WidgetVisuals {
                weak_bg_fill: Color32::from_gray(45),
                bg_fill: Color32::from_gray(27),
                bg_stroke: Stroke::new(100, Color32::from_gray(60)),
                fg_stroke: Stroke::new(100, Color32::from_gray(210)),
                corner_radius: CornerRadius::same(2),
                expansion: 0,
            },
        }
    }

    /// The light theme's widget visuals.
    pub fn light() -> (w: Widgets)
        ensures
            w == light_widgets(),
    {
        Widgets {
            noninteractive: WidgetVisuals {
                weak_bg_fill: Color32::from_gray(248),
                bg_fill: Color32::from_gray(248),
                bg_stroke: Stroke::new(100, Color32::from_gray(190)),
                fg_stroke: Stroke::new(100, Color32::from_gray(80)),
                corner_radius: CornerRadius::same(2),
                expansion: 0,
            },
            inactive: WidgetVisuals {
                weak_bg_fill: Color32::from_gray(230),
                bg_fill: Color32::from_gray(230),
                bg_stroke: Stroke::default(),
                fg_stroke: Stroke::new(100, Color32::from_gray(60)),
                corner_radius: CornerRadius::same(2),
                expansion: 0,
            },
            hovered: WidgetVisuals {
                weak_bg_fill: Color32::from_gray(220),
                bg_fill: Color32::from_gray(220),
                bg_stroke: Stroke::new(100, Color32::from_gray(105)),
                fg_stroke: Stroke::new(150, Color32::black()),
                corner_radius: CornerRadius::same(3),
                expansion: 100,
            },
            active: WidgetVisuals {
                weak_bg_fill: Color32::from_gray(165),
                bg_fill: Color32::from_gray(165),
                bg_stroke: Stroke::new(100, Color32::black()),
                fg_stroke: Stroke::new(200, Color32::black()),
                corner_radius: CornerRadius::same(2),
                expansion: 100,
            },
            open: WidgetVisuals {
                weak_bg_fill: Color32::from_gray(220),
                bg_fill: Color32::from_gray(220),
                bg_stroke: Stroke::new(100, Color32::from_gray(160)),
                fg_stroke: Stroke::new(100, Color32::black()),
                corner_radius: CornerRadius::same(2),
                expansion: 0,
            },
        }
    }
}

impl Default for Widgets {
    /// The dark theme's widget visuals.
    fn default() -> (w: Widgets)
        ensures
            w == dark_widgets(),
    {
        Widgets::dark()
    }
}

/// Whatever a response classifies to, resolving against a set whose
/// mandatory fills are visible yields a visible mandatory fill: consumers
/// may rely on the resolved `bg_fill` never being fully transparent.
pub proof fn lemma_resolved_bg_fill_visible(w: Widgets, r: Response)
    requires
        w.bg_fills_visible(),
    ensures
        !w.entry(classify(r)).bg_fill.is_transparent(),
{
}

/// In the dark preset, every state's mandatory background fill is visible.
pub proof fn lemma_dark_widgets_bg_fills_visible()
    ensures
        dark_widgets().bg_fills_visible(),
{
}

/// In the light preset, every state's mandatory background fill is visible.
pub proof fn lemma_light_widgets_bg_fills_visible()
    ensures
        light_widgets().bg_fills_visible(),
{
}

/// How the text rasterizer turns glyph coverage into text alpha. The theme
/// only chooses between the rasterizer's two presets: one tuned for light
/// text on a dark ground, one for dark text on a light ground.
#[derive(Clone, Copy, Debug, PartialEq, Eq, Structural, Hash)]
pub enum AlphaFromCoverage {
    /// The curve tuned for dark themes.
    DarkModeDefault,
    /// The curve tuned for light themes.
    LightModeDefault,
}

/// The pointer shape shown over an interactive widget, where the host
/// window system supports one.
#[derive(Clone, Copy, Debug, PartialEq, Eq, Structural, Hash)]
pub enum CursorIcon {
    Arrow,
    PointingHand,
    Text,
    Crosshair,
    Move,
    Grab,
    Grabbing,
    Wait,
    Help,
    NotAllowed,
}

/// Look and feel of the text cursor.
#[derive(Clone, Copy, Debug, PartialEq, Eq, Structural, Hash)]
pub struct TextCursorStyle {
    /// Color and width of the text cursor.
    pub stroke: Stroke,
    /// Show where the cursor would land if you clicked.
    pub preview: bool,
    /// Whether the cursor blinks.
    pub blink: bool,
    /// While blinking, how long the cursor is visible, in milliseconds.
    pub on_duration: u32,
    /// While blinking, how long the cursor is invisible, in milliseconds.
    pub off_duration: u32,
}

/// The default text cursor: a light-blue stroke for dark themes, blinking
/// at half a second in each phase.
pub open spec fn default_text_cursor_style() -> TextCursorStyle {
    TextCursorStyle {
        stroke: Stroke::new(200, Color32::from_rgb(192, 222, 255)),
        preview: false,
        blink: true,
        on_duration: 500,
        off_duration: 500,
    }
}

impl Default for TextCursorStyle {
    fn default() -> (t: TextCursorStyle)
        ensures
            t == default_text_cursor_style(),
    {
        TextCursorStyle {
            stroke: Stroke::new(200, Color32::from_rgb(192, 222, 255)),
            preview: false,
            blink: true,
            on_duration: 500,
            off_duration: 500,
        }
    }
}

/// Shape of the handle of sliders and similar widgets.
#[derive(Clone, Copy, Debug, PartialEq, Eq, Structural, Hash)]
pub enum HandleShape {
    /// A circular handle.
    Circle,
    /// A rectangular handle.
    Rect {
        /// Width of the rectangle relative to its height, in hundredths;
        /// values below one hundred make it narrower than tall. Meant to
        /// be positive; nothing enforces a bound.
        aspect_ratio: u32,
    },
}

/// How numeric color values are displayed in editors.
#[derive(Clone, Copy, Debug, PartialEq, Eq, Structural, Hash)]
pub enum NumericColorSpace {
    /// Red, green and blue as 0-255 bytes in gamma space, alpha as a
    /// 0-255 byte in linear space.
    GammaByte,
    /// All four channels as fractions of one in linear space.
    Linear,
}

impl NumericColorSpace {
    /// The other color space.
    pub open spec fn toggled(self) -> NumericColorSpace {
        match self {
            NumericColorSpace::GammaByte => NumericColorSpace::Linear,
            NumericColorSpace::Linear => NumericColorSpace::GammaByte,
        }
    }

    /// The label of the toggle button that switches color spaces.
    pub fn display_name(&self) -> (r: String)
        ensures
            *self is GammaByte ==> r@ == "U8"@,
            *self is Linear ==> r@ == "F"@,
    {
        match self {
            NumericColorSpace::GammaByte => "U8".to_string(),
            NumericColorSpace::Linear => "F".to_string(),
        }
    }

    /// The tooltip of that toggle button.
    pub fn tooltip(&self) -> (r: String)
        ensures
            *self is GammaByte ==> r@ == "Showing color values in 0-255 gamma space"@,
            *self is Linear ==> r@ == "Showing color values in 0-1 linear space"@,
    {
        match self {
            NumericColorSpace::GammaByte => "Showing color values in 0-255 gamma space".to_string(),
            NumericColorSpace::Linear => "Showing color values in 0-1 linear space".to_string(),
        }
    }

    /// The state change behind the toggle button: a click switches to the
    /// other color space; without one nothing changes. Returns whether the
    /// value changed.
    pub fn toggle_button_ui(&mut self, clicked: bool) -> (changed: bool)
        ensures
            clicked ==> *final(self) == old(self).toggled() && changed,
            !clicked ==> *final(self) == *old(self) && !changed,
    {
        if clicked {
            *self = match self {
                NumericColorSpace::GammaByte => NumericColorSpace::Linear,
                NumericColorSpace::Linear => NumericColorSpace::GammaByte,
            };
            true
        } else {
            false
        }
    }
}


/// The color and shape theme of every widget.
///
/// `dark_mode` is descriptive only: it records which preset a theme was
/// derived from, and nothing here recomputes colors from it. A caller may
/// set it inconsistently with the colors; the accessors still answer from
/// the colors alone.
#[derive(Clone, Copy, Debug, PartialEq, Eq, Structural, Hash)]
pub struct Visuals {
    /// True for overall-dark visuals with light text. Descriptive only;
    /// see the type's documentation.
    pub dark_mode: bool,
    /// Which of the rasterizer's text-alpha curves to use.
    pub text_alpha_from_coverage: AlphaFromCoverage,
    /// Overrides the text color of every widget state when set.
    pub override_text_color: Option<Color32>,
    /// How strong "weak" text is, as a fraction of 255; ignored when
    /// `weak_text_color` is set.
    pub weak_text_alpha: u8,
    /// The color of "weak" text; when unset, the normal text color scaled
    /// by `weak_text_alpha`.
    pub weak_text_color: Option<Color32>,
    /// The per-state widget visuals.
    pub widgets: Widgets,
    /// Fill and stroke of selected items.
    pub selection: Selection,
    /// Color of hyperlinks.
    pub hyperlink_color: Color32,
    /// Barely different from the background; used for striping.
    pub faint_bg_color: Color32,
    /// A very dark or very light color, for things that must stand apart
    /// from other interactive surfaces: text-edit backgrounds, scroll bars.
    pub extreme_bg_color: Color32,
    /// Background of text edits; `extreme_bg_color` when unset.
    pub text_edit_bg_color: Option<Color32>,
    /// Background behind code-styled monospace labels.
    pub code_bg_color: Color32,
    /// A good color for warning text.
    pub warn_fg_color: Color32,
    /// A good color for error text.
    pub error_fg_color: Color32,
    pub window_corner_radius: CornerRadius,
    pub window_shadow: Shadow,
    pub window_fill: Color32,
    pub window_stroke: Stroke,
    /// Highlight the topmost window.
    pub window_highlight_topmost: bool,
    pub menu_corner_radius: CornerRadius,
    /// Panel background color.
    pub panel_fill: Color32,
    pub popup_shadow: Shadow,
    /// Side length of the corner that resizes a window, in centipoints.
    pub resize_corner_size: u32,
    /// How the text cursor looks and blinks.
    pub text_cursor: TextCursorStyle,
    /// Margin kept inside a clip rectangle so widgets on the border keep a
    /// visible stroke, in centipoints.
    pub clip_rect_margin: u32,
    /// Show a background behind buttons.
    pub button_frame: bool,
    /// Show a background behind collapsing headers.
    pub collapsing_header_frame: bool,
    /// Draw a vertical line left of indented regions.
    pub indent_has_left_vline: bool,
    /// Whether grids and tables stripe alternating rows by default.
    pub striped: bool,
    /// Show trailing color behind a slider's handle.
    pub slider_trailing_fill: bool,
    /// Shape of slider handles.
    pub handle_shape: HandleShape,
    /// Cursor shown over interactive widgets, if any.
    pub interact_cursor: Option<CursorIcon>,
    /// Show a spinner while an image loads.
    pub image_loading_spinners: bool,
    /// How editors print numeric color values.
    pub numeric_color_space: NumericColorSpace,
    /// Alpha factor applied to a disabled widget's colors, as a fraction
    /// of 255.
    pub disabled_alpha: u8,
}

/// The dark theme.
pub open spec fn dark_visuals() -> Visuals {
    Visuals {
        dark_mode: true,
        text_alpha_from_coverage: AlphaFromCoverage::DarkModeDefault,
        override_text_color: Option::None,
        weak_text_alpha: 153,
        weak_text_color: Option::None,
        widgets: dark_widgets(),
        selection: dark_selection(),
        hyperlink_color: Color32::from_rgb(90, 170, 255),
        faint_bg_color: Color32::from_additive_luminance(5),
        extreme_bg_color: Color32::from_gray(10),
        text_edit_bg_color: Option::None,
        code_bg_color: Color32::from_gray(64),
        warn_fg_color: Color32::from_rgb(255, 143, 0),
        error_fg_color: Color32::from_rgb(255, 0, 0),
        window_corner_radius: CornerRadius::same(6),
        window_shadow: Shadow::new(10, 20, 15, 0, Color32::from_black_alpha(96)),
        window_fill: Color32::from_gray(27),
        window_stroke: Stroke::new(100, Color32::from_gray(60)),
        window_highlight_topmost: true,
        menu_corner_radius: CornerRadius::same(6),
        panel_fill: Color32::from_gray(27),
        popup_shadow: Shadow::new(6, 10, 8, 0, Color32::from_black_alpha(96)),
        resize_corner_size: 1200,
        text_cursor: default_text_cursor_style(),
        clip_rect_margin: 300,
        button_frame: true,
        collapsing_header_frame: false,
        indent_has_left_vline: true,
        striped: false,
        slider_trailing_fill: false,
        handle_shape: HandleShape::Circle,
        interact_cursor: Option::None,
        image_loading_spinners: true,
        numeric_color_space: NumericColorSpace::GammaByte,
        disabled_alpha: 128,
    }
}

/// The light theme: the dark theme with the colors recolored for a light
/// ground, a lighter shadow, a darker cursor, and the light text-alpha
/// curve. Every field not named here keeps its dark-theme value.
pub open spec fn light_visuals() -> Visuals {
    Visuals {
        dark_mode: false,
        text_alpha_from_coverage: AlphaFromCoverage::LightModeDefault,
        widgets: light_widgets(),
        selection: light_selection(),
        hyperlink_color: Color32::from_rgb(0, 155, 255),
        faint_bg_color: Color32::from_additive_luminance(5),
        extreme_bg_color: Color32::from_gray(255),
        code_bg_color: Color32::from_gray(230),
        warn_fg_color: Color32::from_rgb(255, 100, 0),
        error_fg_color: Color32::from_rgb(255, 0, 0),
        window_shadow: Shadow::new(10, 20, 15, 0, Color32::from_black_alpha(25)),
        window_fill: Color32::from_gray(248),
        window_stroke: Stroke::new(100, Color32::from_gray(190)),
        panel_fill: Color32::from_gray(248),
        popup_shadow: Shadow::new(6, 10, 8, 0, Color32::from_black_alpha(25)),
        text_cursor: TextCursorStyle {
            stroke: Stroke::new(200, Color32::from_rgb(0, 83, 125)),
            ..default_text_cursor_style()
        },
        ..dark_visuals()
    }
}

impl Visuals {
    /// The entry for widgets that accept no interaction.
    pub fn noninteractive(&self) -> (r: &WidgetVisuals)
        ensures
            *r == self.widgets.noninteractive,
    {
        &self.widgets.noninteractive
    }

    /// The effective text color: the override when set, else the
    /// noninteractive state's foreground color.
    pub open spec fn spec_text_color(self) -> Color32 {
        match self.override_text_color {
            Option::Some(c) => c,
            Option::None => self.widgets.noninteractive.fg_stroke.color,
        }
    }

    /// Text color of noninteractive widgets.
    pub fn text_color(&self) -> (c: Color32)
        ensures
            c == self.spec_text_color(),
    {
        match self.override_text_color {
            Option::Some(c) => c,
            Option::None => self.widgets.noninteractive.fg_stroke.color,
        }
    }

    /// The effective weak-text color: the explicit one when set, else the
    /// effective text color scaled by `weak_text_alpha`.
    pub open spec fn spec_weak_text_color(self) -> Color32 {
        match self.weak_text_color {
            Option::Some(c) => c,
            Option::None => gamma_scaled(self.spec_text_color(), self.weak_text_alpha),
        }
    }

    /// Color of "weak" (de-emphasized) text.
    pub fn weak_text_color(&self) -> (c: Color32)
        ensures
            c == self.spec_weak_text_color(),
    {
        match self.weak_text_color {
            Option::Some(c) => c,
            Option::None => gamma_multiply_u8(self.text_color(), self.weak_text_alpha),
        }
    }

    /// Color of emphasized text: the active state's foreground color.
    pub fn strong_text_color(&self) -> (c: Color32)
        ensures
            c == self.widgets.active.fg_stroke.color,
    {
        self.widgets.active.fg_stroke.color
    }

    /// Background of text edits: the override when set, else
    /// `extreme_bg_color`.
    pub fn text_edit_bg_color(&self) -> (c: Color32)
        ensures
            c == match self.text_edit_bg_color {
                Option::Some(o) => o,
                Option::None => self.extreme_bg_color,
            },
    {
        match self.text_edit_bg_color {
            Option::Some(c) => c,
            Option::None => self.extreme_bg_color,
        }
    }

    /// Window background color.
    pub fn window_fill(&self) -> (c: Color32)
        ensures
            c == self.window_fill,
    {
        self.window_fill
    }

    /// Window outline stroke.
    pub fn window_stroke(&self) -> (s: Stroke)
        ensures
            s == self.window_stroke,
    {
        self.window_stroke
    }

    /// The color things fade towards when fading out, under the name an
    /// earlier release used: the noninteractive weak background fill.
    pub fn fade_out_to_color(&self) -> (c: Color32)
        ensures
            c == self.widgets.noninteractive.weak_bg_fill,
    {
        self.widgets.noninteractive.weak_bg_fill
    }

    /// The alpha factor applied to disabled widgets, as a fraction of 255.
    pub fn disabled_alpha(&self) -> (a: u8)
        ensures
            a == self.disabled_alpha,
    {
        self.disabled_alpha
    }

    /// A "disabled" version of `color`: its opacity scaled down by
    /// `disabled_alpha`. Where changing opacity is undesirable, use
    /// [`Visuals::gray_out`] instead.
    pub fn disable(&self, color: Color32) -> (c: Color32)
        ensures
            c == gamma_scaled(color, self.disabled_alpha),
    {
        gamma_multiply_u8(color, self.disabled_alpha)
    }

    /// A "grayed out" version of `color`: the color tinted towards the
    /// noninteractive weak background fill. A perceptual desaturation that
    /// keeps the color opaque, for painting on non-uniform backgrounds.
    pub fn gray_out(&self, color: Color32) -> (c: Color32)
        ensures
            c == tinted_towards(color, self.widgets.noninteractive.weak_bg_fill),
    {
        tint_color_towards(color, self.widgets.noninteractive.weak_bg_fill)
    }

    /// The dark theme.
    pub fn dark() -> (v: Visuals)
        ensures
            v == dark_visuals(),
    {
        Visuals {
            dark_mode: true,
            text_alpha_from_coverage: AlphaFromCoverage::DarkModeDefault,
            override_text_color: Option::None,
            weak_text_alpha: 153,
            weak_text_color: Option::None,
            widgets: Widgets::dark(),
            selection: Selection::dark(),
            hyperlink_color: Color32::from_rgb(90, 170, 255),
            faint_bg_color: Color32::from_additive_luminance(5),
            extreme_bg_color: Color32::from_gray(10),
            text_edit_bg_color: Option::None,
            code_bg_color: Color32::from_gray(64),
            warn_fg_color: Color32::from_rgb(255, 143, 0),
            error_fg_color: Color32::from_rgb(255, 0, 0),
            window_corner_radius: CornerRadius::same(6),
            window_shadow: Shadow::new(10, 20, 15, 0, Color32::from_black_alpha(96)),
            window_fill: Color32::from_gray(27),
            window_stroke: Stroke::new(100, Color32::from_gray(60)),
            window_highlight_topmost: true,
            menu_corner_radius: CornerRadius::same(6),
            panel_fill: Color32::from_gray(27),
            popup_shadow: Shadow::new(6, 10, 8, 0, Color32::from_black_alpha(96)),
            resize_corner_size: 1200,
            text_cursor: TextCursorStyle::default(),
            clip_rect_margin: 300,
            button_frame: true,
            collapsing_header_frame: false,
            indent_has_left_vline: true,
            striped: false,
            slider_trailing_fill: false,
            handle_shape: HandleShape::Circle,
            interact_cursor: Option::None,
            image_loading_spinners: true,
            numeric_color_space: NumericColorSpace::GammaByte,
            disabled_alpha: 128,
        }
    }

    /// The light theme, derived from the dark one as [`light_visuals`]
    /// states.
    pub fn light() -> (v: Visuals)
        ensures
            v == light_visuals(),
    {
        Visuals {
            dark_mode: false,
            text_alpha_from_coverage: AlphaFromCoverage::LightModeDefault,
            widgets: Widgets::light(),
            selection: Selection::light(),
            hyperlink_color: Color32::from_rgb(0, 155, 255),
            faint_bg_color: Color32::from_additive_luminance(5),
            extreme_bg_color: Color32::from_gray(255),
            code_bg_color: Color32::from_gray(230),
            warn_fg_color: Color32::from_rgb(255, 100, 0),
            error_fg_color: Color32::from_rgb(255, 0, 0),
            window_shadow: Shadow::new(10, 20, 15, 0, Color32::from_black_alpha(25)),
            window_fill: Color32::from_gray(248),
            window_stroke: Stroke::new(100, Color32::from_gray(190)),
            panel_fill: Color32::from_gray(248),
            popup_shadow: Shadow::new(6, 10, 8, 0, Color32::from_black_alpha(25)),
            text_cursor: TextCursorStyle {
                stroke: Stroke::new(200, Color32::from_rgb(0, 83, 125)),
                ..TextCursorStyle::default()
            },
            ..Visuals::dark()
        }
    }
}

impl Default for Visuals {
    /// The dark theme.
    fn default() -> (v: Visuals)
        ensures
            v == dark_visuals(),
    {
        Visuals::dark()
    }
}

/// Both theme presets keep every state's mandatory background fill visible.
pub proof fn lemma_preset_bg_fills_visible()
    ensures
        dark_visuals().widgets.bg_fills_visible(),
        light_visuals().widgets.bg_fills_visible(),
{
}

} // verus!

