//! Core of a BitTorrent tracker: what the UDP, WebSocket and HTTP front ends decide,
//! kept apart from sockets, executors and files.

pub mod access_list;
pub mod http;
pub mod native_bytes;
pub mod net;
pub mod protocol;
pub mod udp;
pub mod ws;
