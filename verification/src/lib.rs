//! A small verified core for a desktop tool that talks to VEX V5 hardware
//! over serial: it lists the attached devices' port names and opens a single
//! serial connection, kept in an application state cell that always holds at
//! most one live connection.

pub mod device;
pub mod error;
pub mod manager;
pub mod state;
