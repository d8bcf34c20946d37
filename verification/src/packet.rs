//! The message vocabulary of the relay protocol and its mathematical model.

use vstd::prelude::*;

verus! {

/// A participant joined the room.
#[derive(Debug, Clone, PartialEq, Eq)]
pub struct ConnectNotification {
    pub id: String,
}

/// A participant left the room.
#[derive(Debug, Clone, PartialEq, Eq)]
pub struct DisconnectNotification {
    pub id: String,
}

/// Messages the relay server sends to a client.
#[derive(Debug, Clone, PartialEq, Eq)]
pub enum S2C {
    ConnectNotification(ConnectNotification),
    DisconnectNotification(DisconnectNotification),
    Play { yt_link: String },
    Start,
    Skip,
}

/// Messages a client sends to the relay server.
#[derive(Debug, Clone, PartialEq, Eq)]
pub enum C2S {
    Ready1,
    Ready2,
    Play { yt_link: String },
    Skip,
    Playing,
}

/// Model of a server message: strings are sequences of characters.
pub enum ServerMsg {
    Connect { id: Seq<char> },
    Disconnect { id: Seq<char> },
    Play { yt_link: Seq<char> },
    Start,
    Skip,
}

/// Model of a client message.
pub enum ClientMsg {
    Ready1,
    Ready2,
    Play { yt_link: Seq<char> },
    Skip,
    Playing,
}

impl View for S2C {
    type V = ServerMsg;

    open spec fn view(&self) -> ServerMsg {
        match *self {
            S2C::ConnectNotification(n) => ServerMsg::Connect { id: n.id@ },
            S2C::DisconnectNotification(n) => ServerMsg::Disconnect { id: n.id@ },
            S2C::Play { yt_link } => ServerMsg::Play { yt_link: yt_link@ },
            S2C::Start => ServerMsg::Start,
            S2C::Skip => ServerMsg::Skip,
        }
    }
}

impl View for C2S {
    type V = ClientMsg;

    open spec fn view(&self) -> ClientMsg {
        match *self {
            C2S::Ready1 => ClientMsg::Ready1,
            C2S::Ready2 => ClientMsg::Ready2,
            C2S::Play { yt_link } => ClientMsg::Play { yt_link: yt_link@ },
            C2S::Skip => ClientMsg::Skip,
            C2S::Playing => ClientMsg::Playing,
        }
    }
}

} // verus!
