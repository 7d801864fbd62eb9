//! Provisioning WiFi on headless devices: scanning, connecting, and a
//! captive-portal hotspot whose lifecycle survives process restarts.
pub mod exit;
pub mod text;
pub mod ipv4;
pub mod state;
pub mod security;
pub mod device;
pub mod discovery;
pub mod registry;
pub mod config;
pub mod connectivity;
pub mod dhcp;
pub mod hotspot;
