//! Play-time tracking for games: which process is being played, its sessions,
//! when to show the play-time overlay, and the tray menu that controls the
//! tracking service.

pub mod text;
pub mod ignore;
pub mod watcher;
pub mod overlay;
pub mod tray;
pub mod run;
