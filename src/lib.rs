//! A burnout meter: turns the hours of coding measured over a reporting
//! window into a fixed-length row of coloured cells, computes that window
//! (the days since the last Monday), and prepares the status text that a
//! profile shows.

pub mod meter;
pub mod quantity;
pub mod run;
pub mod settings;
pub mod status;
pub mod text;
pub mod window;
