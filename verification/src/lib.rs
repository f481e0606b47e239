//! Duty-cycle core of a battery-powered, deep-sleep-cycling sensor node.
//!
//! Every module holds the decisions of one subsystem as verified functions
//! over plain values; the hardware, the radio and the network stay with the
//! caller, which performs the actions these functions ask for and reports
//! back what happened.

pub mod cell;
pub mod clock;
pub mod containers;
pub mod data_recording;
pub mod duty_cycle;
pub mod logging;
pub mod sensor;
pub mod sensor_data;
pub mod timing;
pub mod wifi;
pub mod worldtimeapi;
