//! The layer that every request handler of the Telescope web server goes
//! through: the failures a request can end in and their HTTP statuses, the
//! hand-over of blocking work to a worker pool, and the handling of the
//! answers of remote GraphQL APIs.

pub mod assignments;
pub mod avatar;
pub mod blocking;
pub mod email;
pub mod error;
pub mod forms;
pub mod graphql;
pub mod oauth;
pub mod queries;
pub mod text;
