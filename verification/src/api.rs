//! What the server side of the site decides: how visits and post views are recorded, what
//! each route answers, and how failures are reported.

pub mod checks;
pub mod chicago;
pub mod data;
pub mod environment;
pub mod errors;
pub mod middleware;
pub mod misc;
pub mod mongo;
pub mod post;
pub mod posts;
pub mod visitor;
