//! The widget toolkit: events, the widget tree, layout and event routing.

pub mod event;
pub mod main_loop;
pub mod color;
pub mod gui;
pub mod laws;
pub mod widgets;
pub mod shader_header;
pub mod draw_2d;
pub mod text;
