//! The logic of a NetworkManager front end: which networks, devices and VPN
//! profiles to list and how, what their detail pages say, how the connection
//! forms are read, and where the style sheet lives.
pub mod model;
pub mod nm;
pub mod order;
pub mod style;
pub mod text;
pub mod ui;
