//! The logic of the client's screens.

pub mod device_settings_left_panel;
pub mod settings_panel;
pub mod join_room_entry;
pub mod main_menu;
pub mod nickname_entry;
pub mod screen_share_dialog;
pub mod room;
