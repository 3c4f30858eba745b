//! Tabs for egui whose active member is joined to the content below it.
//!
//! A tab is a selectable label with a border that is open below: the
//! lower corners are square, the active tab hides the lower edge of its
//! border, and short connectors lead from each tab's lower corners into
//! the line that [`TabWidgetExt::cap_tabs`] draws under the content.
//!
//! The toolkit does the layout, the text and the painting; what is
//! decided here is proved with Verus: how large a tab wants to be
//! ([`tab::desired_size`]), what it paints ([`plan::tab_paint`]), where the
//! closing line runs ([`plan::cap_line`]) and when the selection moves
//! ([`tab_bar::select_on_click`]). What was painted is stated over the
//! view of the context's paint list in [`paint`].
//!
//! Showing a tab asks one thing of the caller: that the toolkit can lay
//! the label out in the context ([`tab::can_show`]), which it cannot
//! before its fonts are loaded or where its style lacks a text style that
//! is asked for.

pub mod geometry;
pub mod number;
pub mod paint;
pub mod plan;
pub mod style;
pub mod tab;
pub mod tab_bar;
pub mod toolkit;

pub use tab::TabWidget;
pub use tab_bar::TabWidgetExt;
