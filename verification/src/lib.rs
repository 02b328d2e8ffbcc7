//! Locating one network device, by MAC address, on a UniFi controller:
//! MAC address text, the controller session, and the search itself as a
//! transition function that a worker thread drives.

pub mod gui;
pub mod mac_address;
pub mod text;
pub mod unifi;
