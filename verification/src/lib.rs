//! Verified core of the Hermes WebUI desktop shell: connection decisions and
//! probing outcomes, the SSH tunnel command line and its failure hints,
//! preferences validation, session capture and restore, the strip-mode tab
//! registry, window titles, placement and ordering, navigation policy, the
//! injected page scripts and what pages send back, menus, paste scripts and
//! the update dialogs.
pub mod bridge;
pub mod conn;
pub mod events;
pub mod health;
pub mod menu;
pub mod paste;
pub mod prefs;
pub mod tunnel;
pub mod updater;
pub mod session;
pub mod state;
pub mod strip;
pub mod text;
pub mod theme;
pub mod weburl;
pub mod windows;
