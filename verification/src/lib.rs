//! A small web service that records one entry per request to its root path.
//!
//! The library holds every decision the service makes: how the connection
//! settings are resolved, which path is served by which handler, in which
//! order the store is asked to do its work, and what the client is told.
//! The program around it only performs the requests that the library asks
//! for and reports back what happened.

pub mod config;
pub mod recorder;
pub mod service;
pub mod table;
pub mod text;
pub mod token;
