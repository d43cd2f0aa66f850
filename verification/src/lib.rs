//! Controlled-widget logic for the Damascene widget kit: routed keys,
//! event classification, and the state folds each widget's
//! `apply_event` performs on app-owned state.

pub mod event;
pub mod key;
pub mod key_set;
pub mod widgets;
