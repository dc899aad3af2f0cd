//! The screens: their state, and what every click and key does to it.
pub mod backup;
pub mod categories;
pub mod chrome;
pub mod insights;
pub mod matcher;
pub mod migrate;
pub mod quickadd;
pub mod quickadd_state;
pub mod rank;
pub mod theme;
pub mod today;
pub mod today_edit;
pub mod tray_notice;
pub mod type_form;
pub mod types;
pub mod types_screen;
pub mod widgets;
