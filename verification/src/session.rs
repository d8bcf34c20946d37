//! The session driver's decisions: the room's address, what to do with each
//! transport frame, and the order in which outbound frames leave.

use vstd::prelude::*;
use crate::codec::{DecodeError, decode, decode_spec, encode, encode_spec};
use crate::machine::{Action, EventModel, Event, Machine, action_model, next};
use crate::packet::{C2S, ClientMsg};

verus! {

/// A transport frame, as far as the session reads it.
#[derive(Debug, Clone, PartialEq, Eq)]
pub enum Frame {
    Text(String),
    Ping(Vec<u8>),
    Pong(Vec<u8>),
    Close,
    /// Any other kind of frame.
    Other,
}

/// What the driver does after a frame.
#[derive(Debug, Clone, PartialEq, Eq)]
pub enum Outcome {
    /// The frame held a server message; the machine answered with this.
    Acted(Option<Action>),
    /// Answer the keepalive with a pong carrying this payload.
    Pong(Vec<u8>),
    /// A pong arrived; nothing to do but note it.
    PongSeen,
    /// The text was no server message; report it and go on.
    Rejected(DecodeError),
    /// The server closed the session; shut down.
    Closed,
    /// A frame the protocol does not use; go on.
    Ignored,
}

/// The address of a room: the server's base address, a slash, the identifier.
pub open spec fn address_spec(base: Seq<char>, id: Seq<char>) -> Seq<char> {
    base + seq!['/'] + id
}

/// Builds the address at which the room `id` is joined.
pub fn room_address(base: &str, id: &str) -> (r: String)
    ensures
        r@ == address_spec(base@, id@),
{
    proof {
        reveal_strlit("/");
        assert("/"@ =~= seq!['/']);
    }
    let mut r = base.to_owned();
    r.append("/");
    r.append(id);
    r
}

/// Handles one inbound frame: text is decoded and fed to the machine, a ping
/// is answered, a close ends the session; nothing else moves the machine.
pub fn dispatch(machine: &mut Machine, frame: Frame) -> (out: Outcome)
    requires
        old(machine).wf(),
        old(machine)@.latest < u64::MAX,
    ensures
        final(machine).wf(),
        match frame {
            Frame::Text(t) => match decode_spec(t@) {
                Ok(m) => out is Acted && (final(machine)@, action_model(out->Acted_0)) == next(
                    old(machine)@,
                    EventModel::Server(m),
                ),
                Err(e) => out == Outcome::Rejected(e) && final(machine)@ == old(machine)@,
            },
            Frame::Ping(payload) => out == Outcome::Pong(payload) && final(machine)@ == old(
                machine,
            )@,
            Frame::Pong(_) => out == Outcome::PongSeen && final(machine)@ == old(machine)@,
            Frame::Close => out == Outcome::Closed && final(machine)@ == old(machine)@,
            Frame::Other => out == Outcome::Ignored && final(machine)@ == old(machine)@,
        },
{
    match frame {
        Frame::Text(t) => match decode(t.as_str()) {
            Ok(m) => Outcome::Acted(machine.step(Event::Server(m))),
            Err(e) => Outcome::Rejected(e),
        },
        Frame::Ping(payload) => Outcome::Pong(payload),
        Frame::Pong(_) => Outcome::PongSeen,
        Frame::Close => Outcome::Closed,
        Frame::Other => Outcome::Ignored,
    }
}

/// The single queue through which every producer's outbound frames pass:
/// whoever holds it appends one whole frame at a time, and frames leave in
/// the order in which they were submitted.
pub struct Outbox {
    frames: Vec<String>,
}

impl View for Outbox {
    type V = Seq<Seq<char>>;

    /// The frames still to be written, oldest first.
    closed spec fn view(&self) -> Seq<Seq<char>> {
        Seq::new(self.frames@.len(), |i: int| self.frames@[i]@)
    }
}

impl Outbox {
    /// An empty outbox.
    pub fn new() -> (r: Outbox)
        ensures
            r@ == Seq::<Seq<char>>::empty(),
    {
        let r = Outbox { frames: Vec::new() };
        assert(r@ =~= Seq::<Seq<char>>::empty());
        r
    }

    /// How many frames wait to be written.
    pub fn pending(&self) -> (n: usize)
        ensures
            n == self@.len(),
    {
        self.frames.len()
    }

    /// Submits a message: its frame is placed, whole, after every frame
    /// submitted before it.
    pub fn send(&mut self, m: &C2S)
        ensures
            final(self)@ == old(self)@.push(encode_spec(m@)),
    {
        let text = encode(m);
        self.frames.push(text);
        assert(self@ =~= old(self)@.push(encode_spec(m@)));
    }

    /// Takes the oldest waiting frame for writing, if any.
    pub fn take(&mut self) -> (r: Option<String>)
        ensures
            old(self)@.len() == 0 ==> r is None && final(self)@ == old(self)@,
            old(self)@.len() > 0 ==> r is Some && r->Some_0@ == old(self)@[0] && final(self)@
                == old(self)@.drop_first(),
    {
        if self.frames.len() > 0 {
            let text = self.frames.remove(0);
            assert(self@ =~= old(self)@.drop_first());
            Some(text)
        } else {
            None
        }
    }
}

/// A message submitted wholly before another leaves wholly before it: after
/// sending `a` and then `b` into an outbox holding `before`, the frames to be
/// written are those of `before`, then the frame of `a`, then the frame of
/// `b`.
pub proof fn law_frames_keep_submission_order(
    before: Seq<Seq<char>>,
    a: ClientMsg,
    b: ClientMsg,
)
    ensures
        before.push(encode_spec(a)).push(encode_spec(b)) == before + seq![
            encode_spec(a),
            encode_spec(b),
        ],
        before.push(encode_spec(a)).push(encode_spec(b)).subrange(0, before.len() as int)
            == before,
{
    assert(before.push(encode_spec(a)).push(encode_spec(b)) =~= before + seq![
        encode_spec(a),
        encode_spec(b),
    ]);
    assert(before.push(encode_spec(a)).push(encode_spec(b)).subrange(0, before.len() as int)
        =~= before);
}

} // verus!
