//! The decisions of a client, one packet at a time.
//!
//! A connection carries one request at a time, and events that the client has
//! registered for may arrive between any two packets. The functions here say,
//! for each operation, which packet to send and what a received packet means
//! for it: skip it, hand it out as an event, or end the operation with a
//! result. Reading and writing the stream is left to the caller.
use crate::error::{Error, ErrorKind, IoFailure};
use crate::packet::{Packet, PacketType, PacketView};
use crate::wire::{ElementView, Message};
use vstd::prelude::*;

verus! {

/// What a received packet means for the operation that is under way.
#[derive(Debug)]
pub enum Step<T> {
    /// The packet is not for this operation: drop it and read the next one.
    Skip,
    /// An event for the caller's handler: hand it over, then read the next
    /// packet.
    Deliver(String, Message),
    /// The operation is over, with this result.
    Done(Result<T, Error>),
}

/// The packet that asks the peer to run `command` on `request`.
pub fn call_request(command: &str, request: &Message) -> (pkt: Packet)
    ensures
        pkt.ty == PacketType::CmdRequest,
        pkt@.name == Some(command@),
        pkt@.message == Some(request@),
        pkt@.well_formed(),
{
    Packet::new(PacketType::CmdRequest, Some(command.to_owned()), Some(request.clone()))
}

/// The packet that subscribes to the events called `name`.
pub fn register_request(name: &str) -> (pkt: Packet)
    ensures
        pkt.ty == PacketType::EventRegister,
        pkt@.name == Some(name@),
        pkt@.message is None,
        pkt@.well_formed(),
{
    Packet::new(PacketType::EventRegister, Some(name.to_owned()), None)
}

/// The packet that ends the subscription to the events called `name`.
pub fn unregister_request(name: &str) -> (pkt: Packet)
    ensures
        pkt.ty == PacketType::EventUnregister,
        pkt@.name == Some(name@),
        pkt@.message is None,
        pkt@.well_formed(),
{
    Packet::new(PacketType::EventUnregister, Some(name.to_owned()), None)
}

/// What a received packet means for the operation that is under way, as a
/// mathematical value.
pub enum Reply {
    /// The packet is dropped and the next one is read.
    Skip,
    /// An event, by name and message.
    Event(Seq<char>, Seq<ElementView>),
    /// The response to the command, by its message.
    Response(Seq<ElementView>),
    /// The peer does not know the command.
    UnknownCommand,
    /// A packet that may not come at this point, or an incomplete event.
    Violation,
}

/// The message of a response: a response without a body stands for the empty
/// message.
pub open spec fn response_message(message: Option<Seq<ElementView>>) -> Seq<ElementView> {
    match message {
        Some(m) => m,
        None => Seq::empty(),
    }
}

/// What a packet means while the answer to a command is awaited by a caller
/// that does not look at events: events are skipped.
pub open spec fn call_reply(p: PacketView) -> Reply {
    match p.ty {
        PacketType::CmdResponse => Reply::Response(response_message(p.message)),
        PacketType::CmdUnknown => Reply::UnknownCommand,
        PacketType::Event => Reply::Skip,
        _ => Reply::Violation,
    }
}

/// What a packet means while the next event is awaited: an event must have
/// its name and its message, and every other packet is skipped.
pub open spec fn event_reply(p: PacketView) -> Reply {
    match p.ty {
        PacketType::Event => if p.name is Some && p.message is Some {
            Reply::Event(p.name->0, p.message->0)
        } else {
            Reply::Violation
        },
        _ => Reply::Skip,
    }
}

/// What a packet means while the answer to a streaming command is awaited:
/// as for a plain call, except that events count.
pub open spec fn streaming_reply(p: PacketView) -> Reply {
    match p.ty {
        PacketType::Event => event_reply(p),
        _ => call_reply(p),
    }
}

/// The step taken for `command` says what `reply` says.
pub open spec fn step_reports(step: Step<Message>, reply: Reply, command: Seq<char>) -> bool {
    match reply {
        Reply::Skip => step is Skip,
        Reply::Event(name, message) => step matches Step::Deliver(n, m) && n@ == name && m@
            == message,
        Reply::Response(message) => step matches Step::Done(Ok(m)) && m@ == message,
        Reply::UnknownCommand => step matches Step::Done(Err(Error::UnknownCommand(c))) && c@
            == command,
        Reply::Violation => step matches Step::Done(Err(e)) && e.kind() == ErrorKind::Protocol,
    }
}

/// A packet received while the answer to `command` is awaited, for a caller
/// that does not look at events.
///
/// A response ends the call with its message. `CmdUnknown` ends it with an
/// error that names the command. An event is skipped. Any other packet may
/// not come here and ends the call with a protocol error.
pub fn on_call_reply(command: &str, pkt: Packet) -> (step: Step<Message>)
    ensures
        step_reports(step, call_reply(pkt@), command@),
{
    match pkt.ty {
        PacketType::CmdResponse => {
            match pkt.message {
                Some(m) => Step::Done(Ok(m)),
                None => Step::Done(Ok(Message::new())),
            }
        },
        PacketType::CmdUnknown => Step::Done(Err(Error::UnknownCommand(command.to_owned()))),
        PacketType::Event => Step::Skip,
        _ => Step::Done(Err(Error::Protocol("unexpected packet while awaiting response"))),
    }
}

/// A packet received while the answer to the streaming `command` is awaited.
///
/// As [`on_call_reply`], except that an event is handed out, name and
/// message as they came, and that an event without a name or without a
/// message ends the call with a protocol error.
pub fn on_streaming_reply(command: &str, pkt: Packet) -> (step: Step<Message>)
    ensures
        step_reports(step, streaming_reply(pkt@), command@),
{
    match pkt.ty {
        PacketType::Event => {
            match (pkt.name, pkt.message) {
                (Some(name), Some(message)) => Step::Deliver(name, message),
                _ => Step::Done(Err(Error::Protocol("event without name or message"))),
            }
        },
        PacketType::CmdResponse => {
            match pkt.message {
                Some(m) => Step::Done(Ok(m)),
                None => Step::Done(Ok(Message::new())),
            }
        },
        PacketType::CmdUnknown => Step::Done(Err(Error::UnknownCommand(command.to_owned()))),
        _ => Step::Done(
            Err(Error::Protocol("unexpected packet while awaiting streamed response")),
        ),
    }
}

/// The result of a registration, by the type of the one packet that answers
/// it: success for `EventConfirm`, the peer's refusal for `EventUnknown`, and
/// a sequencing error for every other type.
pub open spec fn register_reply(ty: PacketType) -> Result<(), Error> {
    match ty {
        PacketType::EventConfirm => Ok(()),
        PacketType::EventUnknown => Err(Error::Protocol("event registration failed")),
        _ => Err(Error::Protocol("unexpected packet after event register")),
    }
}

/// The result of ending a registration, by the type of the one packet that
/// answers it: success for `EventConfirm`, the peer's refusal for
/// `EventUnknown`, and a sequencing error for every other type.
pub open spec fn unregister_reply(ty: PacketType) -> Result<(), Error> {
    match ty {
        PacketType::EventConfirm => Ok(()),
        PacketType::EventUnknown => Err(Error::Protocol("event deregistration failed")),
        _ => Err(Error::Protocol("unexpected packet after event unregister")),
    }
}

/// The one packet read after a request to register for events.
///
/// Only `EventConfirm` is success. `EventUnknown` is the peer's refusal, and
/// any other packet, an event too, may not come here: the two errors differ
/// in their text.
pub fn on_register_reply(reply: &Packet) -> (r: Result<(), Error>)
    ensures
        r == register_reply(reply.ty),
        r is Ok <==> reply.ty == PacketType::EventConfirm,
{
    match reply.ty {
        PacketType::EventConfirm => Ok(()),
        PacketType::EventUnknown => Err(Error::Protocol("event registration failed")),
        _ => Err(Error::Protocol("unexpected packet after event register")),
    }
}

/// The one packet read after a request to end a registration.
///
/// Only `EventConfirm` is success. `EventUnknown` is the peer's refusal, and
/// any other packet, an event too, may not come here: the two errors differ
/// in their text.
pub fn on_unregister_reply(reply: &Packet) -> (r: Result<(), Error>)
    ensures
        r == unregister_reply(reply.ty),
        r is Ok <==> reply.ty == PacketType::EventConfirm,
{
    match reply.ty {
        PacketType::EventConfirm => Ok(()),
        PacketType::EventUnknown => Err(Error::Protocol("event deregistration failed")),
        _ => Err(Error::Protocol("unexpected packet after event unregister")),
    }
}

/// Registration: only `EventConfirm` gives success, and the error for the
/// peer's refusal is another one than the error for a packet that may not
/// come at this point. The same holds of ending a registration.
pub proof fn theorem_registration_refusal_is_distinct(ty: PacketType)
    ensures
        register_reply(ty) is Ok <==> ty == PacketType::EventConfirm,
        unregister_reply(ty) is Ok <==> ty == PacketType::EventConfirm,
        ty != PacketType::EventUnknown ==> register_reply(ty) != register_reply(
            PacketType::EventUnknown,
        ),
        ty != PacketType::EventUnknown ==> unregister_reply(ty) != unregister_reply(
            PacketType::EventUnknown,
        ),
{
    reveal_strlit("event registration failed");
    reveal_strlit("unexpected packet after event register");
    reveal_strlit("event deregistration failed");
    reveal_strlit("unexpected packet after event unregister");
}

/// A packet received while the next event is awaited.
///
/// An event ends the wait with its name and message, or with a protocol
/// error when it lacks one of them. Any other packet is skipped.
pub fn on_event_packet(pkt: Packet) -> (step: Step<(String, Message)>)
    ensures
        match event_reply(pkt@) {
            Reply::Event(name, message) => step matches Step::Done(Ok((n, m))) && n@ == name
                && m@ == message,
            Reply::Skip => step is Skip,
            _ => step matches Step::Done(Err(e)) && e.kind() == ErrorKind::Protocol,
        },
{
    match pkt.ty {
        PacketType::Event => {
            let name = match pkt.name {
                Some(name) => name,
                None => { return Step::Done(Err(Error::Protocol("event without name"))); },
            };
            let message = match pkt.message {
                Some(message) => message,
                None => { return Step::Done(Err(Error::Protocol("event without message"))); },
            };
            Step::Done(Ok((name, message)))
        },
        _ => Step::Skip,
    }
}

/// Whether an error says that the stream had nothing to offer in time.
pub open spec fn is_stream_timeout(e: Error) -> bool {
    e == Error::Io(IoFailure::TimedOut) || e == Error::Io(IoFailure::WouldBlock)
}

/// The error to report when receiving failed while an event was awaited
/// under a deadline.
///
/// A stream that timed out or would block becomes [`Error::Timeout`], so
/// that "nothing happened yet" can be told from a broken connection. Every
/// other error is passed on as it is.
pub fn on_event_wait_failure(e: Error) -> (r: Error)
    ensures
        is_stream_timeout(e) ==> r == Error::Timeout,
        !is_stream_timeout(e) ==> r == e,
{
    match e {
        Error::Io(IoFailure::TimedOut) => Error::Timeout,
        Error::Io(IoFailure::WouldBlock) => Error::Timeout,
        other => other,
    }
}

/// A streaming call and a plain call differ on events only: where the
/// streaming call hands out an event, the plain call skips the packet, and on
/// every packet that is not an event the two end the same way.
pub proof fn theorem_streaming_agrees_with_call(p: PacketView)
    ensures
        streaming_reply(p) is Event ==> call_reply(p) is Skip,
        streaming_reply(p) is Event ==> streaming_reply(p) == Reply::Event(p.name->0, p.message->0),
        p.ty != PacketType::Event ==> streaming_reply(p) == call_reply(p),
        !(streaming_reply(p) is Skip),
{
}

/// How a plain call ends against the packets that the peer sends, in order:
/// with the first one that is not skipped. `None` while every packet so far
/// was skipped.
pub open spec fn call_outcome(replies: Seq<PacketView>) -> Option<Reply>
    decreases replies.len(),
{
    if replies.len() == 0 {
        None
    } else if call_reply(replies[0]) is Skip {
        call_outcome(replies.drop_first())
    } else {
        Some(call_reply(replies[0]))
    }
}

/// How a streaming call ends against the packets that the peer sends, in
/// order: with the first one that is not an event to hand out. `None` while
/// every packet so far was such an event.
pub open spec fn streaming_outcome(replies: Seq<PacketView>) -> Option<Reply>
    decreases replies.len(),
{
    if replies.len() == 0 {
        None
    } else if streaming_reply(replies[0]) is Event {
        streaming_outcome(replies.drop_first())
    } else {
        Some(streaming_reply(replies[0]))
    }
}

/// The events that a streaming call hands out against the packets that the
/// peer sends, in order: those before the packet that ends the call.
pub open spec fn streamed_events(replies: Seq<PacketView>) -> Seq<Reply>
    decreases replies.len(),
{
    if replies.len() == 0 {
        Seq::empty()
    } else if streaming_reply(replies[0]) is Event {
        seq![streaming_reply(replies[0])] + streamed_events(replies.drop_first())
    } else {
        Seq::empty()
    }
}

/// A plain call looks through events: whatever events come first, the call
/// ends as the packet after them says. With `CmdUnknown` there, it ends with
/// the unknown-command error; with a response, it returns that response.
pub proof fn theorem_call_ignores_events(events: Seq<PacketView>, last: PacketView)
    requires
        forall|i: int| 0 <= i < events.len() ==> (#[trigger] events[i]).ty == PacketType::Event,
        last.ty != PacketType::Event,
    ensures
        call_outcome(events.push(last)) == Some(call_reply(last)),
        last.ty == PacketType::CmdUnknown ==> call_outcome(events.push(last)) == Some(
            Reply::UnknownCommand,
        ),
        last.ty == PacketType::CmdResponse ==> call_outcome(events.push(last)) == Some(
            Reply::Response(response_message(last.message)),
        ),
    decreases events.len(),
{
    if events.len() > 0 {
        let rest = events.drop_first();
        assert(events.push(last).drop_first() =~= rest.push(last));
        theorem_call_ignores_events(rest, last);
    }
}

/// Event interleaving: when events with name and message come before the
/// packet that ends a streaming call, the call hands out every one of them,
/// in the order of arrival, and then ends as that packet says, the same way a
/// plain call ends against the same packets.
pub proof fn theorem_streaming_delivers_in_order(events: Seq<PacketView>, last: PacketView)
    requires
        forall|i: int| 0 <= i < events.len() ==> (#[trigger] event_reply(events[i])) is Event,
        last.ty != PacketType::Event,
    ensures
        streamed_events(events.push(last)) == events.map_values(|p: PacketView| event_reply(p)),
        streaming_outcome(events.push(last)) == Some(call_reply(last)),
        streaming_outcome(events.push(last)) == call_outcome(events.push(last)),
    decreases events.len(),
{
    assert forall|i: int| 0 <= i < events.len() implies (#[trigger] events[i]).ty
        == PacketType::Event by {
        assert(event_reply(events[i]) is Event);
    }
    theorem_call_ignores_events(events, last);
    if events.len() > 0 {
        let rest = events.drop_first();
        assert(events.push(last).drop_first() =~= rest.push(last));
        theorem_streaming_delivers_in_order(rest, last);
    }
}

} // verus!
