//! Typestate handle for the server side of a SOCKS5 BIND command: first reply,
//! second reply, then a plain duplex transport.

pub mod wire;
pub mod bind;
