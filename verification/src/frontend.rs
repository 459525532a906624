//! What the browser side of the site computes: the summaries of the incident data and the
//! small models that the pages are drawn from.

pub mod abstractable_hashmap;
pub mod background;
pub mod blog;
pub mod chicago;
pub mod crime_codes;
pub mod date;
pub mod markers;
pub mod open_graph;
pub mod pages;
pub mod popup;
pub mod response;
pub mod sortable;
pub mod story;
pub mod violence;
