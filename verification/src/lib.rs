//! A client core for a bookmarks service that speaks GraphQL over HTTP.
//!
//! The crate turns an operation (log in, list the query fields, list the
//! mutation fields) into the JSON body of one HTTP POST, and turns the outcome
//! of that exchange into what the program prints and the status it exits with.
//! Sending the request is left to the caller.

pub mod documents;
pub mod error;
pub mod request;
pub mod json;
pub mod client;
pub mod outcome;
