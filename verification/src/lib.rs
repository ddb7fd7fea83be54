//! Peekaboo's overlay core: the decisions behind a stealth, always-on-top
//! browser overlay, kept apart from the windowing layer that carries them out.
//!
//! - [`monitor`]: which attached display a saved window position lands on.
//! - [`hover`]: the Ghost/Revealed state machine driven by cursor polling.
//! - [`overlay`]: what the panic hotkey does to the overlay window.
//! - [`settings`]: the persisted settings that the core owns.
//! - [`shortcut`]: keeping a working panic shortcut through saves and startup.

pub mod monitor;
pub mod hover;
pub mod overlay;
pub mod settings;
pub mod shortcut;
