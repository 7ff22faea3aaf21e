//! Verified core of an embedded Wi-Fi LED controller: a connectivity state
//! machine, static/DHCP address binding, an HTTP request parser and router,
//! and a fixed pool of HTTP workers that share one boolean device flag.

pub mod bytes;
pub mod config;
pub mod conn;
pub mod fault;
pub mod http;
pub mod ipv4;
pub mod json;
pub mod led;
pub mod netstack;
pub mod response;
pub mod router;
pub mod worker;
