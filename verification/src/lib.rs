//! Verified core of a terminal manager for systemd units: parsing of
//! `systemctl` output, the state of the unit browser, and the decisions
//! behind each key press and each piece of on-screen text.

pub mod text;
pub mod systemd;
pub mod app;
pub mod event;
pub mod ui;
