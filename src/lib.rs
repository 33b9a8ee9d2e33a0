//! Client library for the game census service: the typed events of its push
//! stream and their decoding, the commands sent to the stream, the rules of a
//! stream session (frame handling, reconnect policy), and the parameters and
//! records of its query service.

pub mod utils;
pub mod json;
pub mod text;

pub mod api_events;
pub mod event_types;
pub mod parse_helpers;
pub mod decoder;
pub mod api_command;
pub mod connection;
pub mod session;

pub mod census_value;
pub mod entities;
pub mod query_builder;
pub mod rest;
pub mod worlds;
