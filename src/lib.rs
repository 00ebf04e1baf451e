//! Shell logic of a desktop client: the application menu it installs, the
//! dispatch of menu events, the update-check flow as a state machine, and the
//! greeting command offered to the front end.
pub mod dialog;
pub mod greeting;
pub mod menu;
pub mod update_flow;
