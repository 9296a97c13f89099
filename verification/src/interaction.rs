//! How and when interaction happens, and the per-frame outcome of a
//! widget's interaction.

use vstd::prelude::*;

verus! {

/// The per-frame interaction outcome for one widget, as the layout engine
/// reports it. The flags are read by the widget-state classification in
/// [`crate::visuals`]; this library never produces a `Response` itself.
#[derive(Clone, Copy, Debug, PartialEq, Eq, Structural, Hash)]
pub struct Response {
    /// Whether the widget accepts interaction at all.
    pub is_interactive: bool,
    /// Whether a pointer button is held down on this widget.
    pub pointer_down_on_this: bool,
    /// Whether the widget has keyboard focus.
    pub has_focus: bool,
    /// Whether the widget was clicked this frame.
    pub just_clicked: bool,
    /// Whether the pointer is over the widget.
    pub is_hovered: bool,
    /// Whether the widget is programmatically highlighted.
    pub is_highlighted: bool,
}

/// Interaction settings: hit radii and tooltip timings.
#[derive(Clone, Copy, Debug, PartialEq, Eq, Structural, Hash)]
pub struct Interaction {
    /// How close the pointer must be to a widget to interact with it, in
    /// centipoints.
    pub interact_radius: u32,
    /// Radius of the interactive area of the side of a window during
    /// drag-to-resize, in centipoints.
    pub resize_grab_radius_side: u32,
    /// Radius of the interactive area of the corner of a window during
    /// drag-to-resize, in centipoints.
    pub resize_grab_radius_corner: u32,
    /// If false, tooltips show whenever something is hovered, even while
    /// the pointer is still moving.
    pub show_tooltips_only_when_still: bool,
    /// Delay before a tooltip appears once the pointer is still, in
    /// milliseconds.
    pub tooltip_delay: u32,
    /// If another widget is hovered within this many milliseconds of a
    /// tooltip having been shown, its tooltip appears at once.
    pub tooltip_grace_time: u32,
    /// Whether label text can be selected by default.
    pub selectable_labels: bool,
    /// Whether one text selection may span several labels.
    pub multi_widget_text_select: bool,
}

/// The default interaction settings.
pub open spec fn default_interaction() -> Interaction {
    Interaction {
        interact_radius: 500,
        resize_grab_radius_side: 500,
        resize_grab_radius_corner: 1000,
        show_tooltips_only_when_still: true,
        tooltip_delay: 500,
        tooltip_grace_time: 200,
        selectable_labels: true,
        multi_widget_text_select: true,
    }
}

impl Default for Interaction {
    fn default() -> (r: Interaction)
        ensures
            r == default_interaction(),
    {
        Interaction {
            interact_radius: 500,
            resize_grab_radius_side: 500,
            resize_grab_radius_corner: 1000,
            show_tooltips_only_when_still: true,
            tooltip_delay: 500,
            tooltip_grace_time: 200,
            selectable_labels: true,
            multi_widget_text_select: true,
        }
    }
}

} // verus!
