//! The style aggregate, and how text styles and widget states resolve
//! through it.
//!
//! A [`Style`] composes the text-style mapping, spacing, interaction
//! settings and the [`Visuals`] theme. Font resolution follows a strict
//! precedence: an explicit font id always wins over a text-style override,
//! which wins over the `Body` default. Looking up a text style the mapping
//! lacks is a configuration bug, not a runtime condition: the resolving
//! functions demand the key's presence, and [`TextStyle::try_resolve`] and
//! [`FontSelection::try_resolve`] report absence instead.

use vstd::prelude::*;

use crate::debug::DebugOptions;
use crate::fonts::FontId;
use crate::fonts::TextStyle;
use crate::fonts::TextStyleMap;
use crate::fonts::default_text_styles;
use crate::fonts::default_text_styles_map;
use crate::geometry::Align;
use crate::interaction::Interaction;
use crate::interaction::Response;
use crate::spacing::ScrollAnimation;
use crate::spacing::Spacing;
use crate::spacing::TimeRange;
use crate::visuals::Visuals;
use crate::visuals::WidgetVisuals;
use crate::visuals::classify;

verus! {

/// Whether text that does not fit wraps, is truncated, or extends past the
/// available width.
#[derive(Clone, Copy, Debug, PartialEq, Eq, Structural, Hash)]
pub enum TextWrapMode {
    /// Let the text extend past the available width.
    Extend,
    /// Wrap to a new line.
    Wrap,
    /// Cut the text off, with an ellipsis.
    Truncate,
}

/// The look and feel of a user interface: everything a frame needs to
/// resolve fonts and paint widgets.
#[derive(Clone, Debug, PartialEq)]
pub struct Style {
    /// When set, widgets that do not choose a text style themselves use
    /// this one. An explicit `override_font_id` still wins.
    pub override_text_style: Option<TextStyle>,
    /// When set, widgets that do not choose a font themselves use this
    /// font, whatever `override_text_style` says.
    pub override_font_id: Option<FontId>,
    /// How to vertically align text; `None` follows the current layout.
    pub override_text_valign: Option<Align>,
    /// Which font each text style resolves to.
    pub text_styles: TextStyleMap,
    /// The text style of numeric-entry widgets.
    pub drag_value_text_style: TextStyle,
    /// When set, the default wrapping of labels and buttons; `None`
    /// follows the layout.
    pub wrap_mode: Option<TextWrapMode>,
    /// Sizes and distances between widgets.
    pub spacing: Spacing,
    /// How and when interaction happens.
    pub interaction: Interaction,
    /// Colors and shapes.
    pub visuals: Visuals,
    /// How long a typical animation lasts, in milliseconds.
    pub animation_time: u32,
    /// Extra debug visualization.
    pub debug: DebugOptions,
    /// Show explanatory tooltips on numeric-entry widgets and the like.
    pub explanation_tooltips: bool,
    /// Show a hyperlink's URL in a tooltip when hovered.
    pub url_in_tooltip: bool,
    /// When only one scroll direction is enabled, scroll it without the
    /// shift key.
    pub always_scroll_the_only_direction: bool,
    /// How programmatic scrolling is animated.
    pub scroll_animation: ScrollAnimation,
    /// Use a more compact look for menus.
    pub compact_menu_style: bool,
}

/// What [`Style`]'s `Default` promises, field by field. The text-style
/// mapping is pinned as a mapping.
pub open spec fn is_default_style(s: Style) -> bool {
    &&& s.override_text_style is None
    &&& s.override_font_id is None
    &&& s.override_text_valign == Option::Some(Align::Center)
    &&& s.text_styles@ == default_text_styles_map()
    &&& s.drag_value_text_style == TextStyle::Button
    &&& s.wrap_mode is None
    &&& s.spacing == crate::spacing::default_spacing()
    &&& s.interaction == crate::interaction::default_interaction()
    &&& s.visuals == crate::visuals::dark_visuals()
    &&& s.animation_time == 83
    &&& s.debug == crate::debug::default_debug_options()
    &&& !s.explanation_tooltips
    &&& !s.url_in_tooltip
    &&& !s.always_scroll_the_only_direction
    &&& s.scroll_animation == ScrollAnimation::new(100000, TimeRange::new(100, 300))
    &&& s.compact_menu_style
}

impl Default for Style {
    /// The default style: no overrides, centered text, the default text
    /// styles, the dark theme, and an animation time of a twelfth of a
    /// second.
    fn default() -> (s: Style)
        ensures
            is_default_style(s),
    {
        Style {
            override_text_style: Option::None,
            override_font_id: Option::None,
            override_text_valign: Option::Some(Align::Center),
            text_styles: default_text_styles(),
            drag_value_text_style: TextStyle::Button,
            wrap_mode: Option::None,
            spacing: Spacing::default(),
            interaction: Interaction::default(),
            visuals: Visuals::default(),
            animation_time: 83,
            debug: DebugOptions::default(),
            explanation_tooltips: false,
            url_in_tooltip: false,
            always_scroll_the_only_direction: false,
            scroll_animation: ScrollAnimation::default(),
            compact_menu_style: true,
        }
    }
}

impl Style {
    /// The visuals to paint an interactive widget with: the entry of the
    /// state its response classifies to. The response must already exist:
    /// space is allocated and interacted with before painting.
    pub fn interact(&self, response: &Response) -> (r: &WidgetVisuals)
        ensures
            *r == self.visuals.widgets.entry(classify(*response)),
    {
        self.visuals.widgets.style(response)
    }

    /// As [`Style::interact`], but for toggle-like widgets: when
    /// `selected`, both background fills become the selection fill and the
    /// foreground stroke becomes the selection stroke, while the
    /// background stroke and the rest stay as resolved.
    pub fn interact_selectable(&self, response: &Response, selected: bool) -> (r: WidgetVisuals)
        ensures
            r == self.spec_interact_selectable(*response, selected),
    {
        let mut visuals = *self.visuals.widgets.style(response);
        if selected {
            visuals.weak_bg_fill = self.visuals.selection.bg_fill;
            visuals.bg_fill = self.visuals.selection.bg_fill;
            visuals.fg_stroke = self.visuals.selection.stroke;
        }
        visuals
    }

    /// The value [`Style::interact_selectable`] returns.
    pub open spec fn spec_interact_selectable(self, response: Response, selected: bool)
        -> WidgetVisuals {
        let base = self.visuals.widgets.entry(classify(response));
        if selected {
            WidgetVisuals {
                weak_bg_fill: self.visuals.selection.bg_fill,
                bg_fill: self.visuals.selection.bg_fill,
                fg_stroke: self.visuals.selection.stroke,
                ..base
            }
        } else {
            base
        }
    }

    /// The visuals of widgets that accept no interaction.
    pub fn noninteractive(&self) -> (r: &WidgetVisuals)
        ensures
            *r == self.visuals.widgets.noninteractive,
    {
        &self.visuals.widgets.noninteractive
    }

    /// All known text styles, one for each key of the mapping.
    pub fn text_styles(&self) -> (r: Vec<TextStyle>)
        ensures
            r@.len() == self.text_styles.spec_len(),
            forall|i: int| 0 <= i < r@.len() ==> self.text_styles@.contains_key(r@[i]@),
            forall|i: int, j: int| 0 <= i < j < r@.len() ==> r@[i]@ != r@[j]@,
            forall|k: crate::fonts::StyleKeyView|
                self.text_styles@.contains_key(k) ==> exists|i: int|
                    0 <= i < r@.len() && r@[i]@ == k,
    {
        self.text_styles.keys()
    }
}

impl TextStyle {
    /// The font this text style resolves to in `style`. The style must
    /// carry the key: a missing text style is a configuration bug, and
    /// every default theme carries the five closed styles. Use
    /// [`TextStyle::try_resolve`] where absence is to be reported instead.
    pub fn resolve(&self, style: &Style) -> (r: FontId)
        requires
            style.text_styles@.contains_key(self@),
        ensures
            r@ == style.text_styles@[self@],
    {
        match style.text_styles.get(self) {
            Option::Some(f) => f.clone(),
            Option::None => vstd::pervasive::unreached(),
        }
    }

    /// The font this text style resolves to, or `None` exactly when the
    /// style's mapping lacks the key.
    pub fn try_resolve(&self, style: &Style) -> (r: Option<FontId>)
        ensures
            match r {
                Option::Some(f) => style.text_styles@.contains_key(self@) && f@
                    == style.text_styles@[self@],
                Option::None => !style.text_styles@.contains_key(self@),
            },
    {
        match style.text_styles.get(self) {
            Option::Some(f) => Option::Some(f.clone()),
            Option::None => Option::None,
        }
    }
}

/// How a font is chosen: directly, through a text style, or left to the
/// style's defaults.
#[derive(Clone, Debug, PartialEq)]
pub enum FontSelection {
    /// Use the style's defaults: its font-id override when set, else its
    /// text-style override, else `TextStyle::Body`.
    Default,
    /// This exact font.
    FontId(FontId),
    /// Whatever font `style.text_styles` gives this text style.
    Style(TextStyle),
}

impl Default for FontSelection {
    fn default() -> (s: FontSelection)
        ensures
            s is Default,
    {
        FontSelection::Default
    }
}

impl vstd::std_specs::convert::FromSpecImpl<FontId> for FontSelection {
    open spec fn obeys_from_spec() -> bool {
        true
    }

    open spec fn from_spec(font_id: FontId) -> FontSelection {
        FontSelection::FontId(font_id)
    }
}

impl From<FontId> for FontSelection {
    fn from(font_id: FontId) -> (s: FontSelection)
        ensures
            s == FontSelection::FontId(font_id),
    {
        FontSelection::FontId(font_id)
    }
}

impl vstd::std_specs::convert::FromSpecImpl<TextStyle> for FontSelection {
    open spec fn obeys_from_spec() -> bool {
        true
    }

    open spec fn from_spec(text_style: TextStyle) -> FontSelection {
        FontSelection::Style(text_style)
    }
}

impl From<TextStyle> for FontSelection {
    fn from(text_style: TextStyle) -> (s: FontSelection)
        ensures
            s == FontSelection::Style(text_style),
    {
        FontSelection::Style(text_style)
    }
}

/// Whether the selection can be resolved in `style`: every text style it
/// may look up is present in the mapping.
pub open spec fn resolvable(sel: FontSelection, style: Style) -> bool {
    match sel {
        FontSelection::Default => match style.override_font_id {
            Option::Some(_) => true,
            Option::None => match style.override_text_style {
                Option::Some(ts) => style.text_styles@.contains_key(ts@),
                Option::None => style.text_styles@.contains_key((TextStyle::Body)@),
            },
        },
        FontSelection::FontId(_) => true,
        FontSelection::Style(ts) => style.text_styles@.contains_key(ts@),
    }
}

/// The font a selection resolves to in `style`. `Default` resolution
/// order: the style's font-id override when set; else its text-style
/// override, resolved; else `TextStyle::Body`, resolved. The font-id
/// override always wins over the text-style override.
pub open spec fn resolved_font(sel: FontSelection, style: Style) -> crate::fonts::FontIdView {
    match sel {
        FontSelection::Default => match style.override_font_id {
            Option::Some(f) => f@,
            Option::None => match style.override_text_style {
                Option::Some(ts) => style.text_styles@[ts@],
                Option::None => style.text_styles@[(TextStyle::Body)@],
            },
        },
        FontSelection::FontId(f) => f@,
        FontSelection::Style(ts) => style.text_styles@[ts@],
    }
}

impl FontSelection {
    /// Resolves the selection in `style`, following the precedence
    /// [`resolved_font`] states.
    pub fn resolve(self, style: &Style) -> (r: FontId)
        requires
            resolvable(self, *style),
        ensures
            r@ == resolved_font(self, *style),
    {
        match self {
            FontSelection::Default => {
                match &style.override_font_id {
                    Option::Some(override_font_id) => override_font_id.clone(),
                    Option::None => match &style.override_text_style {
                        Option::Some(text_style) => text_style.resolve(style),
                        Option::None => TextStyle::Body.resolve(style),
                    },
                }
            },
            FontSelection::FontId(font_id) => font_id,
            FontSelection::Style(text_style) => text_style.resolve(style),
        }
    }

    /// Resolves the selection, or reports which text style the mapping
    /// lacks: `Err` carries the missing key, exactly when one is missing.
    pub fn try_resolve(self, style: &Style) -> (r: Result<FontId, TextStyle>)
        ensures
            match r {
                Result::Ok(f) => resolvable(self, *style) && f@ == resolved_font(self, *style),
                Result::Err(missing) => !resolvable(self, *style) && !style.text_styles@.contains_key(
                    missing@,
                ),
            },
    {
        match self {
            FontSelection::Default => {
                match &style.override_font_id {
                    Option::Some(override_font_id) => Result::Ok(override_font_id.clone()),
                    Option::None => match &style.override_text_style {
                        Option::Some(text_style) => match text_style.try_resolve(style) {
                            Option::Some(f) => Result::Ok(f),
                            Option::None => Result::Err(text_style.clone()),
                        },
                        Option::None => match TextStyle::Body.try_resolve(style) {
                            Option::Some(f) => Result::Ok(f),
                            Option::None => Result::Err(TextStyle::Body),
                        },
                    },
                }
            },
            FontSelection::FontId(font_id) => Result::Ok(font_id),
            FontSelection::Style(text_style) => match text_style.try_resolve(style) {
                Option::Some(f) => Result::Ok(f),
                Option::None => Result::Err(text_style),
            },
        }
    }
}

/// With no overrides set, the default selection resolves to exactly what
/// `TextStyle::Body` resolves to.
pub proof fn lemma_default_selection_is_body(style: Style)
    requires
        style.override_font_id is None,
        style.override_text_style is None,
    ensures
        resolved_font(FontSelection::Default, style) == resolved_font(
            FontSelection::Style(TextStyle::Body),
            style,
        ),
        resolvable(FontSelection::Default, style) == resolvable(
            FontSelection::Style(TextStyle::Body),
            style,
        ),
{
}

/// A font-id override decides the default selection by itself: whatever
/// the text-style override says, the selection resolves to the override
/// font, and always resolves.
pub proof fn lemma_font_id_override_wins(style: Style, f: FontId)
    requires
        style.override_font_id == Option::Some(f),
    ensures
        resolvable(FontSelection::Default, style),
        resolved_font(FontSelection::Default, style) == f@,
{
}

/// A default theme's mapping carries all five closed text styles, so
/// resolving each of them is allowed and cannot fail.
pub proof fn lemma_baseline_styles_resolvable(style: Style)
    requires
        style.text_styles@ == default_text_styles_map(),
    ensures
        style.text_styles@.contains_key((TextStyle::Small)@),
        style.text_styles@.contains_key((TextStyle::Body)@),
        style.text_styles@.contains_key((TextStyle::Monospace)@),
        style.text_styles@.contains_key((TextStyle::Button)@),
        style.text_styles@.contains_key((TextStyle::Heading)@),
        style.override_text_style is None ==> resolvable(FontSelection::Default, style),
{
}

} // verus!
