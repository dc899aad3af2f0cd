//! What the program decides about its windows, its icons, its settings and other running copies
//! of itself.
pub mod event;
pub mod geometry;
pub mod icon;
pub mod import_run;
pub mod repaint;
pub mod session;
pub mod shell;
pub mod single_instance;
