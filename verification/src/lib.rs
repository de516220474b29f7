//! Client-side logic of the SecNet security-operations console: the data
//! model of alerts, traffic and devices, the filters and live feeds the
//! views show, the session and routing decisions, and the shape of every
//! request the console sends to its API.

pub mod text;
pub mod model;
pub mod lists;
pub mod filters;
pub mod stats;
pub mod live;
pub mod ids;
pub mod api;
pub mod forms;
pub mod session;
pub mod labels;
pub mod time;
pub mod laws;
