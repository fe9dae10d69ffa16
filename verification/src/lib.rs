//! Telemetry bridge core: sensor readings arrive as JSON datagrams and leave
//! as broker publications, routed by the kind of reading.

pub mod codec;
pub mod common;
pub mod connector;
pub mod controller;
pub mod decimal;
pub mod error;
pub mod fields;
pub mod framing;
pub mod json;
pub mod pipeline;
