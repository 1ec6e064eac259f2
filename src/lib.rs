//! Catalog of archived student and teacher works: the verified core that
//! validates search criteria, composes parameterised SQL statements, maps
//! store outcomes to results and errors, and writes the chat bot's replies.

pub mod text;
pub mod error;
pub mod work;
pub mod query;
pub mod ids;
pub mod service;
pub mod bot;
pub mod max;
