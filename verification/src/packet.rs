//! Packet layer: the eight kinds of packet, and a packet's wire form as its
//! type code, its name where the kind carries one, and its message.
use crate::codec_laws::{lemma_name_roundtrip, theorem_decode_encode};
use crate::error::{Error, ErrorKind};
use crate::wire::{
    decode_name, decode_u8, element_bytes, encode_name, message_bytes, message_fits, name_field,
    name_fits, parsed_message, parsed_name, ElementView, Message,
};
use vstd::prelude::*;

verus! {

/// Top-level packet types of the protocol.
///
/// | code | type            | named | direction        |
/// |------|-----------------|-------|------------------|
/// | 0    | CmdRequest      | yes   | client to server |
/// | 1    | CmdResponse     | no    | server to client |
/// | 2    | CmdUnknown      | no    | server to client |
/// | 3    | EventRegister   | yes   | client to server |
/// | 4    | EventUnregister | yes   | client to server |
/// | 5    | EventConfirm    | no    | server to client |
/// | 6    | EventUnknown    | no    | server to client |
/// | 7    | Event           | yes   | server to client |
#[derive(Debug, Clone, Copy, PartialEq, Eq, Structural)]
pub enum PacketType {
    /// A named request message (client -> server).
    CmdRequest,
    /// An unnamed response message (server -> client).
    CmdResponse,
    /// An unnamed response indicating the command was unknown.
    CmdUnknown,
    /// A named event registration request (client -> server).
    EventRegister,
    /// A named event deregistration request (client -> server).
    EventUnregister,
    /// An unnamed response for successful event (de-)registration.
    EventConfirm,
    /// An unnamed response if event (de-)registration failed.
    EventUnknown,
    /// A named event message (server -> client).
    Event,
}

impl PacketType {
    /// Whether packets of this type carry a name.
    pub open spec fn spec_is_named(self) -> bool {
        self == PacketType::CmdRequest || self == PacketType::EventRegister || self
            == PacketType::EventUnregister || self == PacketType::Event
    }

    /// Whether this packet carries a "name" field (single-byte length + text).
    #[verifier::when_used_as_spec(spec_is_named)]
    pub fn is_named(self) -> (r: bool)
        ensures
            r == self.spec_is_named(),
    {
        match self {
            PacketType::CmdRequest
            | PacketType::EventRegister
            | PacketType::EventUnregister
            | PacketType::Event => true,
            _ => false,
        }
    }

    /// The byte that stands for this type on the wire.
    pub open spec fn spec_code(self) -> u8 {
        match self {
            PacketType::CmdRequest => 0,
            PacketType::CmdResponse => 1,
            PacketType::CmdUnknown => 2,
            PacketType::EventRegister => 3,
            PacketType::EventUnregister => 4,
            PacketType::EventConfirm => 5,
            PacketType::EventUnknown => 6,
            PacketType::Event => 7,
        }
    }

    /// The byte that stands for this type on the wire.
    #[verifier::when_used_as_spec(spec_code)]
    pub fn code(self) -> (r: u8)
        ensures
            r == self.spec_code(),
    {
        match self {
            PacketType::CmdRequest => 0,
            PacketType::CmdResponse => 1,
            PacketType::CmdUnknown => 2,
            PacketType::EventRegister => 3,
            PacketType::EventUnregister => 4,
            PacketType::EventConfirm => 5,
            PacketType::EventUnknown => 6,
            PacketType::Event => 7,
        }
    }

    /// The type that a byte stands for, if any.
    pub open spec fn spec_from_code(code: u8) -> Option<PacketType> {
        if code == 0 {
            Some(PacketType::CmdRequest)
        } else if code == 1 {
            Some(PacketType::CmdResponse)
        } else if code == 2 {
            Some(PacketType::CmdUnknown)
        } else if code == 3 {
            Some(PacketType::EventRegister)
        } else if code == 4 {
            Some(PacketType::EventUnregister)
        } else if code == 5 {
            Some(PacketType::EventConfirm)
        } else if code == 6 {
            Some(PacketType::EventUnknown)
        } else if code == 7 {
            Some(PacketType::Event)
        } else {
            None
        }
    }

    /// The type that a byte stands for, if any.
    #[verifier::when_used_as_spec(spec_from_code)]
    pub fn from_code(code: u8) -> (r: Option<PacketType>)
        ensures
            r == PacketType::spec_from_code(code),
    {
        match code {
            0 => Some(PacketType::CmdRequest),
            1 => Some(PacketType::CmdResponse),
            2 => Some(PacketType::CmdUnknown),
            3 => Some(PacketType::EventRegister),
            4 => Some(PacketType::EventUnregister),
            5 => Some(PacketType::EventConfirm),
            6 => Some(PacketType::EventUnknown),
            7 => Some(PacketType::Event),
            _ => None,
        }
    }

    /// Codes and types correspond one to one.
    pub proof fn lemma_code_roundtrip(self)
        ensures
            PacketType::spec_from_code(self.spec_code()) == Some(self),
            self.spec_code() <= 7,
    {
    }
}

/// A parsed packet ready to be consumed by the application.
#[derive(Debug, Eq)]
pub struct Packet {
    /// The packet type.
    pub ty: PacketType,
    /// Optional name (command name or event name), present if `ty.is_named()`.
    pub name: Option<String>,
    /// Optional hierarchical message.
    pub message: Option<Message>,
}

/// The mathematical value of a [`Packet`].
pub struct PacketView {
    pub ty: PacketType,
    pub name: Option<Seq<char>>,
    pub message: Option<Seq<ElementView>>,
}

impl PacketView {
    /// The packet has a name exactly when its type carries one.
    pub open spec fn well_formed(self) -> bool {
        self.name is Some <==> self.ty.is_named()
    }
}

impl View for Packet {
    type V = PacketView;

    open spec fn view(&self) -> PacketView {
        PacketView {
            ty: self.ty,
            name: match self.name {
                Some(name) => Some(name@),
                None => None,
            },
            message: match self.message {
                Some(message) => Some(message@),
                None => None,
            },
        }
    }
}

/// Wire form of the name of a packet: present exactly for the named types.
pub open spec fn packet_name_bytes(p: PacketView) -> Seq<u8> {
    if p.ty.is_named() && p.name is Some {
        name_field(p.name->0)
    } else {
        Seq::empty()
    }
}

/// Wire form of the message of a packet: nothing when there is none.
pub open spec fn packet_message_bytes(p: PacketView) -> Seq<u8> {
    match p.message {
        Some(m) => message_bytes(m),
        None => Seq::empty(),
    }
}

/// Wire form of a packet, or the kind of error that encoding it gives.
///
/// A packet of a named type that has no name is a protocol error. A name or
/// a message over its size limits is a size error.
pub open spec fn packet_bytes(p: PacketView) -> Result<Seq<u8>, ErrorKind> {
    if p.ty.is_named() && p.name is None {
        Err(ErrorKind::Protocol)
    } else if p.ty.is_named() && !name_fits(p.name->0) {
        Err(ErrorKind::TooLong)
    } else if p.message is Some && !message_fits(p.message->0) {
        Err(ErrorKind::TooLong)
    } else {
        Ok(seq![p.ty.code()] + packet_name_bytes(p) + packet_message_bytes(p))
    }
}

/// The message that the bytes after a packet's type and name stand for: none
/// when no byte is left.
pub open spec fn parsed_packet_message(s: Seq<u8>) -> Result<
    Option<Seq<ElementView>>,
    ErrorKind,
> {
    if s.len() == 0 {
        Ok(None)
    } else {
        match parsed_message(s) {
            Ok(m) => Ok(Some(m)),
            Err(k) => Err(k),
        }
    }
}

/// What decoding `s` as a packet gives: the packet, or the kind of the first
/// error.
pub open spec fn parsed_packet(s: Seq<u8>) -> Result<PacketView, ErrorKind> {
    if s.len() == 0 {
        Err(ErrorKind::Protocol)
    } else {
        match PacketType::from_code(s[0]) {
            None => Err(ErrorKind::Protocol),
            Some(ty) => if ty.is_named() {
                match parsed_name(s.skip(1)) {
                    Err(k) => Err(k),
                    Ok((name, rest)) => match parsed_packet_message(rest) {
                        Err(k) => Err(k),
                        Ok(message) => Ok(PacketView { ty, name: Some(name), message }),
                    },
                }
            } else {
                match parsed_packet_message(s.skip(1)) {
                    Err(k) => Err(k),
                    Ok(message) => Ok(PacketView { ty, name: None, message }),
                }
            },
        }
    }
}

impl Packet {
    /// Create a new packet with optional name/message.
    pub fn new(ty: PacketType, name: Option<String>, message: Option<Message>) -> (r: Self)
        ensures
            r.ty == ty,
            r.name == name,
            r.message == message,
    {
        Self { ty, name, message }
    }

    /// Encode this packet: type code, name if the type is named, message if
    /// there is one.
    pub fn encode(&self) -> (r: Result<Vec<u8>, Error>)
        ensures
            match packet_bytes(self@) {
                Ok(bytes) => r matches Ok(v) && v@ == bytes,
                Err(k) => r matches Err(e) && e.kind() == k,
            },
    {
        let mut data: Vec<u8> = Vec::new();
        data.push(self.ty.code());
        if self.ty.is_named() {
            let name = match &self.name {
                Some(name) => name,
                None => { return Err(Error::Protocol("named packet missing name")); },
            };
            match encode_name(&mut data, name.as_str()) {
                Ok(()) => {},
                Err(_) => { return Err(Error::TooLong("packet name")); },
            }
        }
        if let Some(msg) = &self.message {
            let bytes = match msg.encode() {
                Ok(bytes) => bytes,
                Err(e) => { return Err(e); },
            };
            data.extend_from_slice(bytes.as_slice());
        }
        Ok(data)
    }

    /// Decode a packet: one byte selects the type, a name follows if the type
    /// is named, and whatever is left is the message.
    pub fn decode(body: &[u8]) -> (r: Result<Self, Error>)
        ensures
            match parsed_packet(body@) {
                Ok(p) => r matches Ok(pkt) && pkt@ == p && p.well_formed(),
                Err(k) => r matches Err(e) && e.kind() == k,
            },
    {
        let (code, rest) = match decode_u8(body) {
            Ok(p) => p,
            Err(e) => { return Err(e); },
        };
        let ty = match PacketType::from_code(code) {
            Some(ty) => ty,
            None => { return Err(Error::Protocol("unknown packet type")); },
        };
        let (name, rest) = if ty.is_named() {
            match decode_name(rest) {
                Ok((name, rest)) => (Some(name), rest),
                Err(e) => { return Err(e); },
            }
        } else {
            (None, rest)
        };
        let message = if rest.len() > 0 {
            match Message::decode(rest) {
                Ok(m) => Some(m),
                Err(e) => { return Err(e); },
            }
        } else {
            None
        };
        Ok(Packet { ty, name, message })
    }
}

impl Clone for Packet {
    fn clone(&self) -> (r: Self)
        ensures
            r@ == self@,
    {
        let name = match &self.name {
            Some(name) => Some(name.clone()),
            None => None,
        };
        let message = match &self.message {
            Some(message) => Some(message.clone()),
            None => None,
        };
        Packet { ty: self.ty, name, message }
    }
}

/// An encoded message is empty exactly when the message has no element.
pub proof fn lemma_message_bytes_empty(m: Seq<ElementView>)
    ensures
        message_bytes(m).len() == 0 <==> m.len() == 0,
{
}

/// Decoding undoes encoding for packets too: a well-formed packet comes back
/// as it was, except that a message without elements comes back as no
/// message, since neither leaves a byte on the wire.
pub proof fn theorem_packet_decode_encode(p: PacketView)
    requires
        p.well_formed(),
        packet_bytes(p) is Ok,
    ensures
        parsed_packet(packet_bytes(p)->Ok_0) == Ok::<_, ErrorKind>(
            PacketView {
                ty: p.ty,
                name: p.name,
                message: if p.message is Some && p.message->0.len() > 0 {
                    p.message
                } else {
                    None
                },
            },
        ),
{
    let s = packet_bytes(p)->Ok_0;
    let tail = packet_message_bytes(p);
    p.ty.lemma_code_roundtrip();
    if let Some(m) = p.message {
        lemma_message_bytes_empty(m);
        theorem_decode_encode(m);
    }
    if p.ty.is_named() {
        assert(s.skip(1) =~= name_field(p.name->0) + tail);
        lemma_name_roundtrip(p.name->0, tail);
    } else {
        assert(s.skip(1) =~= tail);
    }
}

} // verus!
