//! A MikroTik bandwidth-test server: its wire protocol and its decisions.

pub mod data;
pub mod laws;
pub mod model;
pub mod protocol;
pub mod server;
pub mod session;
pub mod steps;
pub mod text;
pub mod wire;
