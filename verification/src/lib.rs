//! Verified core logic of the reaction-wheel pendulum: sensor register decoding,
//! sensor session state machines, command framing, commutation tables and the
//! host command-line grammar.

pub mod tmc6300;
pub mod bytes;
pub mod tmag5273;
pub mod hall;
pub mod gy521;
pub mod imu;
pub mod current;
pub mod command;
pub mod text;
pub mod cli;
pub mod proxy;
pub mod host;
pub mod wifi;
