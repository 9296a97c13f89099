//! A verified theming library for immediate-mode GUIs.
//!
//! The library models a complete widget theme: a [`style::Style`] aggregate
//! that composes text-style resolution, spacing, interaction timings and a
//! full color palette ([`visuals::Visuals`]), together with the rules that
//! resolve a widget's per-frame interaction state to concrete paint
//! parameters.
//!
//! Scalar conventions used throughout:
//! * lengths, sizes and widths are `u32` values in hundredths of a point
//!   ("centipoints"), so `600` is a width of 6 points;
//! * durations are `u32` values in milliseconds;
//! * opacity factors are `u8` values where `255` means fully opaque.

pub mod color;
pub mod debug;
pub mod fonts;
pub mod geometry;
pub mod interaction;
pub mod persist;
pub mod spacing;
pub mod style;
pub mod visuals;

pub use color::Color32;
pub use color::Shadow;
pub use color::Stroke;
pub use debug::DebugOptions;
pub use fonts::FontFamily;
pub use fonts::FontId;
pub use fonts::TextStyle;
pub use fonts::TextStyleMap;
pub use fonts::default_text_styles;
pub use geometry::Align;
pub use geometry::CornerRadius;
pub use geometry::Margin;
pub use geometry::Rect;
pub use geometry::Vec2;
pub use interaction::Interaction;
pub use interaction::Response;
pub use persist::PersistedStyle;
pub use spacing::ScrollAnimation;
pub use spacing::ScrollStyle;
pub use spacing::Spacing;
pub use spacing::TimeRange;
pub use style::FontSelection;
pub use style::Style;
pub use style::TextWrapMode;
pub use visuals::AlphaFromCoverage;
pub use visuals::CursorIcon;
pub use visuals::HandleShape;
pub use visuals::NumericColorSpace;
pub use visuals::Selection;
pub use visuals::TextCursorStyle;
pub use visuals::Visuals;
pub use visuals::WidgetState;
pub use visuals::WidgetVisuals;
pub use visuals::Widgets;
