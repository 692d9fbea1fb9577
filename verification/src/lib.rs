//! Networking, boot and menu logic of Block City Adventure, verified.
pub mod text;
pub mod local_debug;
pub mod pvp_net;
pub mod pvp_laws;
pub mod room_form;
pub mod pvp_menu;
pub mod window_controls;
pub mod assets;
