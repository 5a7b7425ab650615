//! Verified core of the Daywatch desktop shell: the decisions behind the
//! logout overlay and the dashboard widgets, kept apart from the toolkits
//! that draw them.

pub mod calendar;
pub mod command;
pub mod icon;
pub mod logout;
pub mod media;
pub mod quote;
pub mod stats;
pub mod status;
pub mod switches;
pub mod systray;
