//! Theme data and editor state for a terminal theme editor for Zellij.
//!
//! `theme` holds colors, theme components and themes; `text` the small
//! string and number formatting the editor needs; `state` the editor state
//! machine; `events` the keyboard dispatch; `layout` the rendering
//! arithmetic and texts that do not depend on the terminal; `properties`
//! what holds across several operations.
pub mod text;

pub mod theme;
pub mod state;
pub mod events;
pub mod layout;
pub mod properties;
