//! The persisted form of a style.
//!
//! A [`PersistedStyle`] is a [`Style`] with every field optional: a stored
//! theme written by an older release may lack fields a newer one knows,
//! and loading fills each absent field with its default. Storing a style
//! records every field, so storing and loading gives the style back
//! unchanged; [`lemma_persisted_round_trip`] states that law.
//!
//! Turning the record into bytes and back is the host's business; the
//! record holds plain values only. The host's number-formatter callback is
//! not part of the record at all: a callback cannot be stored, and a
//! loaded style always starts with the default formatter.

use vstd::prelude::*;

use crate::debug::DebugOptions;
use crate::debug::default_debug_options;
use crate::fonts::FontId;
use crate::fonts::TextStyle;
use crate::fonts::TextStyleMap;
use crate::fonts::default_text_styles;
use crate::fonts::default_text_styles_map;
use crate::geometry::Align;
use crate::interaction::Interaction;
use crate::interaction::default_interaction;
use crate::spacing::ScrollAnimation;
use crate::spacing::Spacing;
use crate::spacing::TimeRange;
use crate::spacing::default_spacing;
use crate::style::Style;
use crate::style::TextWrapMode;
use crate::visuals::Visuals;
use crate::visuals::dark_visuals;

verus! {

/// A style as stored: every field of [`Style`], each one optional. An
/// absent field loads as its default.
#[derive(Clone, Debug, PartialEq, Default)]
pub struct PersistedStyle {
    pub override_text_style: Option<Option<TextStyle>>,
    pub override_font_id: Option<Option<FontId>>,
    pub override_text_valign: Option<Option<Align>>,
    pub text_styles: Option<TextStyleMap>,
    pub drag_value_text_style: Option<TextStyle>,
    pub wrap_mode: Option<Option<TextWrapMode>>,
    pub spacing: Option<Spacing>,
    pub interaction: Option<Interaction>,
    pub visuals: Option<Visuals>,
    pub animation_time: Option<u32>,
    pub debug: Option<DebugOptions>,
    pub explanation_tooltips: Option<bool>,
    pub url_in_tooltip: Option<bool>,
    pub always_scroll_the_only_direction: Option<bool>,
    pub scroll_animation: Option<ScrollAnimation>,
    pub compact_menu_style: Option<bool>,
}

/// The record that stores `s`: every field present.
pub open spec fn spec_to_persisted(s: Style) -> PersistedStyle {
    PersistedStyle {
        override_text_style: Option::Some(s.override_text_style),
        override_font_id: Option::Some(s.override_font_id),
        override_text_valign: Option::Some(s.override_text_valign),
        text_styles: Option::Some(s.text_styles),
        drag_value_text_style: Option::Some(s.drag_value_text_style),
        wrap_mode: Option::Some(s.wrap_mode),
        spacing: Option::Some(s.spacing),
        interaction: Option::Some(s.interaction),
        visuals: Option::Some(s.visuals),
        animation_time: Option::Some(s.animation_time),
        debug: Option::Some(s.debug),
        explanation_tooltips: Option::Some(s.explanation_tooltips),
        url_in_tooltip: Option::Some(s.url_in_tooltip),
        always_scroll_the_only_direction: Option::Some(s.always_scroll_the_only_direction),
        scroll_animation: Option::Some(s.scroll_animation),
        compact_menu_style: Option::Some(s.compact_menu_style),
    }
}

/// How a loaded style relates to its record: each present field is taken
/// as stored, each absent field is its default.
pub open spec fn loaded_from(p: PersistedStyle, r: Style) -> bool {
    &&& (match p.override_text_style {
        Option::Some(v) => r.override_text_style == v,
        Option::None => r.override_text_style is None,
    })
    &&& (match p.override_font_id {
        Option::Some(v) => r.override_font_id == v,
        Option::None => r.override_font_id is None,
    })
    &&& (match p.override_text_valign {
        Option::Some(v) => r.override_text_valign == v,
        Option::None => r.override_text_valign == Option::Some(Align::Center),
    })
    &&& (match p.text_styles {
        Option::Some(m) => r.text_styles == m,
        Option::None => r.text_styles@ == default_text_styles_map(),
    })
    &&& (match p.drag_value_text_style {
        Option::Some(v) => r.drag_value_text_style == v,
        Option::None => r.drag_value_text_style == TextStyle::Button,
    })
    &&& (match p.wrap_mode {
        Option::Some(v) => r.wrap_mode == v,
        Option::None => r.wrap_mode is None,
    })
    &&& (match p.spacing {
        Option::Some(v) => r.spacing == v,
        Option::None => r.spacing == default_spacing(),
    })
    &&& (match p.interaction {
        Option::Some(v) => r.interaction == v,
        Option::None => r.interaction == default_interaction(),
    })
    &&& (match p.visuals {
        Option::Some(v) => r.visuals == v,
        Option::None => r.visuals == dark_visuals(),
    })
    &&& (match p.animation_time {
        Option::Some(v) => r.animation_time == v,
        Option::None => r.animation_time == 83,
    })
    &&& (match p.debug {
        Option::Some(v) => r.debug == v,
        Option::None => r.debug == default_debug_options(),
    })
    &&& (match p.explanation_tooltips {
        Option::Some(v) => r.explanation_tooltips == v,
        Option::None => !r.explanation_tooltips,
    })
    &&& (match p.url_in_tooltip {
        Option::Some(v) => r.url_in_tooltip == v,
        Option::None => !r.url_in_tooltip,
    })
    &&& (match p.always_scroll_the_only_direction {
        Option::Some(v) => r.always_scroll_the_only_direction == v,
        Option::None => !r.always_scroll_the_only_direction,
    })
    &&& (match p.scroll_animation {
        Option::Some(v) => r.scroll_animation == v,
        Option::None => r.scroll_animation == ScrollAnimation::new(100000, TimeRange::new(100, 300)),
    })
    &&& (match p.compact_menu_style {
        Option::Some(v) => r.compact_menu_style == v,
        Option::None => r.compact_menu_style,
    })
}

/// The record that stores the style, with every field present.
pub fn to_persisted(s: Style) -> (p: PersistedStyle)
    ensures
        p == spec_to_persisted(s),
{
    let Style {
        override_text_style,
        override_font_id,
        override_text_valign,
        text_styles,
        drag_value_text_style,
        wrap_mode,
        spacing,
        interaction,
        visuals,
        animation_time,
        debug,
        explanation_tooltips,
        url_in_tooltip,
        always_scroll_the_only_direction,
        scroll_animation,
        compact_menu_style,
    } = s;
    PersistedStyle {
        override_text_style: Option::Some(override_text_style),
        override_font_id: Option::Some(override_font_id),
        override_text_valign: Option::Some(override_text_valign),
        text_styles: Option::Some(text_styles),
        drag_value_text_style: Option::Some(drag_value_text_style),
        wrap_mode: Option::Some(wrap_mode),
        spacing: Option::Some(spacing),
        interaction: Option::Some(interaction),
        visuals: Option::Some(visuals),
        animation_time: Option::Some(animation_time),
        debug: Option::Some(debug),
        explanation_tooltips: Option::Some(explanation_tooltips),
        url_in_tooltip: Option::Some(url_in_tooltip),
        always_scroll_the_only_direction: Option::Some(always_scroll_the_only_direction),
        scroll_animation: Option::Some(scroll_animation),
        compact_menu_style: Option::Some(compact_menu_style),
    }
}

/// The style a record loads as: present fields as stored, absent fields
/// as their defaults.
pub fn from_persisted(p: PersistedStyle) -> (r: Style)
    ensures
        loaded_from(p, r),
{
    let PersistedStyle {
        override_text_style,
        override_font_id,
        override_text_valign,
        text_styles,
        drag_value_text_style,
        wrap_mode,
        spacing,
        interaction,
        visuals,
        animation_time,
        debug,
        explanation_tooltips,
        url_in_tooltip,
        always_scroll_the_only_direction,
        scroll_animation,
        compact_menu_style,
    } = p;
    Style {
        override_text_style: match override_text_style {
            Option::Some(v) => v,
            Option::None => Option::None,
        },
        override_font_id: match override_font_id {
            Option::Some(v) => v,
            Option::None => Option::None,
        },
        override_text_valign: match override_text_valign {
            Option::Some(v) => v,
            Option::None => Option::Some(Align::Center),
        },
        text_styles: match text_styles {
            Option::Some(m) => m,
            Option::None => default_text_styles(),
        },
        drag_value_text_style: match drag_value_text_style {
            Option::Some(v) => v,
            Option::None => TextStyle::Button,
        },
        wrap_mode: match wrap_mode {
            Option::Some(v) => v,
            Option::None => Option::None,
        },
        spacing: match spacing {
            Option::Some(v) => v,
            Option::None => Spacing::default(),
        },
        interaction: match interaction {
            Option::Some(v) => v,
            Option::None => Interaction::default(),
        },
        visuals: match visuals {
            Option::Some(v) => v,
            Option::None => Visuals::default(),
        },
        animation_time: match animation_time {
            Option::Some(v) => v,
            Option::None => 83,
        },
        debug: match debug {
            Option::Some(v) => v,
            Option::None => DebugOptions::default(),
        },
        explanation_tooltips: match explanation_tooltips {
            Option::Some(v) => v,
            Option::None => false,
        },
        url_in_tooltip: match url_in_tooltip {
            Option::Some(v) => v,
            Option::None => false,
        },
        always_scroll_the_only_direction: match always_scroll_the_only_direction {
            Option::Some(v) => v,
            Option::None => false,
        },
        scroll_animation: match scroll_animation {
            Option::Some(v) => v,
            Option::None => ScrollAnimation::new(100000, TimeRange::new(100, 300)),
        },
        compact_menu_style: match compact_menu_style {
            Option::Some(v) => v,
            Option::None => true,
        },
    }
}

/// Storing a style and loading the record gives the style back, equal in
/// every field. (The host's number formatter is outside the record: it is
/// not storable and always loads as the default formatter.)
pub proof fn lemma_persisted_round_trip(s: Style, r: Style)
    requires
        loaded_from(spec_to_persisted(s), r),
    ensures
        r == s,
{
}

} // verus!
