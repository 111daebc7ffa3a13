//! Personal self-assessment report: GitHub pull requests and Trello cards
//! gathered into one presentation payload.

pub mod cli;
pub mod colour;
pub mod github;
pub mod models;
pub mod report;
pub mod text;
pub mod trello;
