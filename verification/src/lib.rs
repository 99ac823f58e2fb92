//! The server side of a SOCKSv5 handshake, as a verified library.
//!
//! A proxy server runs one [`client::Client`] for each connection that it
//! accepts. The client never touches a socket: it is told what happened (an
//! [`client::Event`]) and answers with what is to be done next (an
//! [`client::Action`]), from the first version byte to the point where bytes
//! are relayed between the two ends. What it decides on the way is stated in
//! [`client::next`] and proved of the code.
#![allow(deprecated)]

pub mod addr;
pub mod client;
pub mod error;
pub mod laws;
pub mod report;
pub mod requests;
pub mod resolve;
pub mod runs;
pub mod sessions;
pub mod steps;
pub mod text;
pub mod v4;
pub mod v5;
pub mod values;
pub mod window;
pub mod wire;
