//! Endpoint taxonomy and kline-interval model for an exchange REST client.
use vstd::prelude::*;

pub mod api;
pub mod calendar;
pub mod client;
pub mod futures_general;
pub mod futures_userstream;
pub mod interval;
pub mod model;
pub mod userstream;
