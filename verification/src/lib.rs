//! Client-side core of a framed request/response/event protocol spoken with a
//! local control daemon.
//!
//! The crate is free of I/O. It holds
//!
//! - [`wire`]: the message codec, a flat sequence of tagged elements that
//!   stands for nested sections, lists and key/value pairs;
//! - [`packet`]: the eight kinds of packet and their wire form;
//! - [`frame`]: the length prefix in front of every packet, and the ceiling
//!   on a packet's size;
//! - [`client`]: what a client sends for each operation, and what each packet
//!   it receives means for the operation that is under way;
//! - [`deadline`]: the steps of a wait under a read deadline of its own;
//! - [`text`]: messages as text for people to read;
//! - [`equality`]: `==` on elements, messages and packets;
//! - [`codec_laws`]: what holds of the codec as a whole.
//!
//! Every executable function carries a contract over the mathematical model
//! of the wire format, and the contracts are machine checked.
pub mod client;
pub mod codec_laws;
pub mod deadline;
pub mod equality;
pub mod error;
pub mod frame;
pub mod packet;
pub mod text;
pub mod wire;

pub use crate::error::{Error, ErrorKind, IoFailure};
pub use crate::packet::{Packet, PacketType};
pub use crate::wire::{Element, Message};
