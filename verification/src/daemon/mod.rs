//! The decisions of the sensor daemon's HTTP endpoints: live events, health,
//! and pcap export.

pub mod events;
pub mod health;
pub mod pcap;
