//! Widgets that several pages share.

pub mod help_popup;
pub mod input_box;
pub mod selection;

pub use help_popup::{HelpItem, HelpPopup, PopupLayout, Rect};
pub use input_box::{CursorParts, InputBoxError, InputBoxState, InputBoxView};
pub use selection::SelectionState;
