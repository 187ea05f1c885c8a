//! Session controller for a terminal viewer of sumo tournament data.

pub mod args;
pub mod banzuke;
pub mod dates;
pub mod display;
pub mod division;
pub mod labels;
pub mod model;
pub mod records;
pub mod reload;
pub mod session;
pub mod text;
pub mod tournament;
