//! Discovery and handshake core for a server that advertises itself on the
//! local network and for the clients that look for it.

pub mod connect;
