pub mod commands;
pub mod constants;
pub mod position;
pub mod prompt;
pub mod traits;
pub mod widgets;
