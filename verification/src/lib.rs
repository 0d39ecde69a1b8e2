//! Verified core of a macOS menu bar system monitor: where the login item
//! lives and what it holds, when auto-launch counts as enabled and what a
//! toggle does, and the text of the menu bar title and of the dropdown menu.

pub mod autostart;
pub mod figure;
pub mod menu;
pub mod smc;
pub mod system_stats;
