pub mod gui;
pub mod widgets;
