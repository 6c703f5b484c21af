//! Checks whether third-party services are up, by reading their public
//! status feeds. The library holds the decisions: which feed a target names,
//! how a feed's reply becomes outcomes, and when a watch stops.

pub mod text;
pub mod json;
pub mod check;
pub mod registry;
pub mod target;
pub mod planner;
pub mod watch;
pub mod report;
