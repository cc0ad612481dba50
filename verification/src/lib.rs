//! The interaction logic of a clipboard manager's main window.
//!
//! Every view of the window is a plain state machine here. An operation takes
//! the view's state and the part of the application state that it reads, moves
//! both to their next values, and queues the work that only the surrounding
//! program can do (pasting, the database, timers, painting) as requests in the
//! order in which it has to happen.

pub mod app_state;
pub mod click;
pub mod clipboard_list;
pub mod dialog_laws;
pub mod filter_bar;
pub mod filters;
pub mod frame_laws;
pub mod ids;
pub mod items;
pub mod key_laws;
pub mod list_click;
pub mod list_keys;
pub mod list_laws;
pub mod list_menu;
pub mod list_panels;
pub mod list_pointer;
pub mod list_sync;
pub mod list_tags;
pub mod menu_laws;
pub mod navigation;
pub mod overlays;
pub mod panel_laws;
pub mod paste_laws;
pub mod root;
pub mod root_dialogs;
pub mod root_frame;
pub mod root_laws;
pub mod rows;
pub mod search_box;
pub mod selection_laws;
pub mod settings_panel;
pub mod sidebar;
pub mod sidebar_laws;
pub mod sync_laws;
pub mod tag_color;
pub mod tags;
pub mod text;
pub mod theme;
pub mod toast;
pub mod type_filter_config;
pub mod types;
pub mod update_toast;
pub mod usage_order;
pub mod view_laws;
pub mod window_laws;
