//! View-model logic of an administrative dashboard for a fleet of Minecraft
//! servers: input validation, response classification, user notices, log
//! filtering, metric history and the text that the pages show.

pub mod api;
pub mod clock;
pub mod events;
pub mod feed;
pub mod form;
pub mod history;
pub mod labels;
pub mod notice;
pub mod routes;
pub mod text;
pub mod validate;
