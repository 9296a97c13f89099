//! Options that add extra visualization to help debug a user interface.

use vstd::prelude::*;

verus! {

/// Extra debug visualization. The host's build decides which of these its
/// tooling honors; the theme only stores the choices.
#[derive(Clone, Copy, Debug, PartialEq, Eq, Structural, Hash)]
pub struct DebugOptions {
    /// Always show the callstack to the hovered item.
    pub debug_on_hover: bool,
    /// Show that callstack when all modifier keys are held down.
    pub debug_on_hover_with_all_modifiers: bool,
    /// When the hover information shows, include where the next widget
    /// would be placed.
    pub hover_shows_next: bool,
    /// Show which widgets make their parent wider.
    pub show_expand_width: bool,
    /// Show which widgets make their parent higher.
    pub show_expand_height: bool,
    /// Visualize resizing.
    pub show_resize: bool,
    /// Overlay every interactive widget.
    pub show_interactive_widgets: bool,
    /// Show the widgets under the pointer.
    pub show_widget_hits: bool,
    /// Highlight widgets not aligned to whole points.
    pub show_unaligned: bool,
}

/// The default debug options: everything off except the alignment check.
pub open spec fn default_debug_options() -> DebugOptions {
    DebugOptions {
        debug_on_hover: false,
        debug_on_hover_with_all_modifiers: false,
        hover_shows_next: false,
        show_expand_width: false,
        show_expand_height: false,
        show_resize: false,
        show_interactive_widgets: false,
        show_widget_hits: false,
        show_unaligned: true,
    }
}

impl Default for DebugOptions {
    fn default() -> (d: DebugOptions)
        ensures
            d == default_debug_options(),
    {
        DebugOptions {
            debug_on_hover: false,
            debug_on_hover_with_all_modifiers: false,
            hover_shows_next: false,
            show_expand_width: false,
            show_expand_height: false,
            show_resize: false,
            show_interactive_widgets: false,
            show_widget_hits: false,
            show_unaligned: true,
        }
    }
}

} // verus!
