//! Client-side coordination layer between a user interface and a media
//! routing daemon: a mirror of the daemon's object registry, resolution of
//! symbolic link endpoints, the command decisions of the bridge thread, and
//! decoding of the state that the daemon reports for links, nodes and ports.

pub mod bridge;
pub mod endpoint;
pub mod link;
pub mod mirror;
pub mod node;
pub mod object;
pub mod port;
pub mod properties;
pub mod proxy;
