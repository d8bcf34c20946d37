//! The playback-readiness state machine.
//!
//! The machine is a pure transition function: the driver hands it one event
//! at a time and performs the action it answers with. Downloads are tagged
//! with a sequence number so that the completion of a superseded download is
//! recognised and dropped.

use vstd::prelude::*;
use crate::packet::{C2S, S2C, ClientMsg, ServerMsg};

verus! {

/// Where the client stands in the download / start / play cycle.
#[derive(Debug, Clone, Copy, PartialEq, Eq, Structural)]
pub enum Phase {
    /// Nothing is requested.
    Idle,
    /// An authoritative play request arrived and its download is in flight.
    Downloading,
    /// The download succeeded and the server was told; waiting for the start.
    ReadyToStart,
    /// The engine reported that it plays.
    PlayingLocally,
    /// Playback is over. No transition rests here: whatever ends playback
    /// leads straight back to `Idle`.
    Stopped,
}

/// What the playback engine reports.
#[derive(Debug, Clone, Copy, PartialEq, Eq, Structural)]
pub enum EngineState {
    Playing,
    Ended,
    Error,
}

/// A request typed by the operator.
#[derive(Debug, Clone, PartialEq, Eq)]
pub enum Command {
    Play { yt_link: String },
    Skip,
}

/// A failure that is reported to the operator and to nobody else.
#[derive(Debug, Clone, Copy, PartialEq, Eq, Structural)]
pub enum Fault {
    DownloadFailed,
    PlaybackFailed,
}

/// Everything that can advance the machine.
#[derive(Debug, Clone, PartialEq, Eq)]
pub enum Event {
    /// A decoded message from the relay server.
    Server(S2C),
    /// The download tagged `seq` finished, successfully or not.
    FetchDone { seq: u64, ok: bool },
    /// The playback engine changed state.
    Engine(EngineState),
    /// The operator asked for something.
    User(Command),
}

/// What the driver must do after a transition.
#[derive(Debug, Clone, PartialEq, Eq)]
pub enum Action {
    /// Send this message to the relay server.
    Send(C2S),
    /// Start downloading `yt_link` and report back with `seq`.
    Fetch { seq: u64, yt_link: String },
    /// Load the downloaded track into the engine and play it.
    LoadAndPlay,
    /// Stop the engine.
    StopPlayback,
    /// Tell the operator that a peer joined or left.
    Announce { joined: bool, id: String },
    /// Tell the operator about a failure.
    Report(Fault),
}

/// Model of [`Command`].
pub enum CommandModel {
    Play { yt_link: Seq<char> },
    Skip,
}

/// Model of [`Event`].
pub enum EventModel {
    Server(ServerMsg),
    FetchDone { seq: nat, ok: bool },
    Engine(EngineState),
    User(CommandModel),
}

/// Model of [`Action`].
pub enum ActionModel {
    Send(ClientMsg),
    Fetch { seq: nat, yt_link: Seq<char> },
    LoadAndPlay,
    StopPlayback,
    Announce { joined: bool, id: Seq<char> },
    Report(Fault),
}

/// Model of [`Machine`].
pub struct MachineModel {
    /// The local participant's identifier.
    pub me: Seq<char>,
    pub phase: Phase,
    /// Sequence number of the latest authoritative play request; 0 before any.
    pub latest: nat,
    /// The engine was told to play, or reported playing, and has neither
    /// ended nor been stopped since.
    pub engaged: bool,
}

impl View for Command {
    type V = CommandModel;

    open spec fn view(&self) -> CommandModel {
        match *self {
            Command::Play { yt_link } => CommandModel::Play { yt_link: yt_link@ },
            Command::Skip => CommandModel::Skip,
        }
    }
}

impl View for Event {
    type V = EventModel;

    open spec fn view(&self) -> EventModel {
        match *self {
            Event::Server(m) => EventModel::Server(m@),
            Event::FetchDone { seq, ok } => EventModel::FetchDone { seq: seq as nat, ok },
            Event::Engine(s) => EventModel::Engine(s),
            Event::User(c) => EventModel::User(c@),
        }
    }
}

impl View for Action {
    type V = ActionModel;

    open spec fn view(&self) -> ActionModel {
        match *self {
            Action::Send(m) => ActionModel::Send(m@),
            Action::Fetch { seq, yt_link } => ActionModel::Fetch { seq: seq as nat, yt_link: yt_link@ },
            Action::LoadAndPlay => ActionModel::LoadAndPlay,
            Action::StopPlayback => ActionModel::StopPlayback,
            Action::Announce { joined, id } => ActionModel::Announce { joined, id: id@ },
            Action::Report(f) => ActionModel::Report(f),
        }
    }
}

/// The model of an optional action.
pub open spec fn action_model(a: Option<Action>) -> Option<ActionModel> {
    match a {
        Some(x) => Some(x@),
        None => None,
    }
}

/// A state of the model is well formed when local playback implies an
/// engaged engine.
pub open spec fn model_wf(s: MachineModel) -> bool {
    s.phase == Phase::PlayingLocally ==> s.engaged
}

/// The state with another phase.
pub open spec fn with_phase(s: MachineModel, phase: Phase) -> MachineModel {
    MachineModel { phase, ..s }
}

/// Transition on a message from the relay server.
pub open spec fn on_server(s: MachineModel, m: ServerMsg) -> (MachineModel, Option<ActionModel>) {
    match m {
        ServerMsg::Connect { id } => (
            s,
            if id == s.me {
                None
            } else {
                Some(ActionModel::Announce { joined: true, id })
            },
        ),
        ServerMsg::Disconnect { id } => (
            s,
            if id == s.me {
                None
            } else {
                Some(ActionModel::Announce { joined: false, id })
            },
        ),
        ServerMsg::Play { yt_link } => (
            MachineModel { phase: Phase::Downloading, latest: s.latest + 1, ..s },
            Some(ActionModel::Fetch { seq: s.latest + 1, yt_link }),
        ),
        ServerMsg::Start => if s.phase == Phase::ReadyToStart {
            (MachineModel { engaged: true, ..s }, Some(ActionModel::LoadAndPlay))
        } else {
            (s, None)
        },
        ServerMsg::Skip => (
            MachineModel { phase: Phase::Idle, engaged: false, ..s },
            if s.engaged {
                Some(ActionModel::StopPlayback)
            } else {
                None
            },
        ),
    }
}

/// Transition on the completion of the download tagged `seq`.
pub open spec fn on_fetch_done(s: MachineModel, seq: nat, ok: bool) -> (
    MachineModel,
    Option<ActionModel>,
) {
    if s.phase == Phase::Downloading && seq == s.latest {
        if ok {
            (with_phase(s, Phase::ReadyToStart), Some(ActionModel::Send(ClientMsg::Ready2)))
        } else {
            (with_phase(s, Phase::Idle), Some(ActionModel::Report(Fault::DownloadFailed)))
        }
    } else {
        (s, None)
    }
}

/// Transition on a report of the playback engine.
pub open spec fn on_engine(s: MachineModel, e: EngineState) -> (MachineModel, Option<ActionModel>) {
    match e {
        EngineState::Playing => if s.phase == Phase::ReadyToStart || s.phase
            == Phase::PlayingLocally {
            (
                MachineModel { phase: Phase::PlayingLocally, engaged: true, ..s },
                Some(ActionModel::Send(ClientMsg::Playing)),
            )
        } else {
            (s, None)
        },
        EngineState::Ended => if s.phase == Phase::PlayingLocally {
            (
                MachineModel { phase: Phase::Idle, engaged: false, ..s },
                Some(ActionModel::Send(ClientMsg::Ready1)),
            )
        } else {
            (MachineModel { engaged: false, ..s }, None)
        },
        EngineState::Error => if s.phase == Phase::PlayingLocally {
            (s, Some(ActionModel::Report(Fault::PlaybackFailed)))
        } else {
            (s, None)
        },
    }
}

/// Transition on an operator command: the request goes to the server, which
/// decides; the local state does not move.
pub open spec fn on_user(s: MachineModel, c: CommandModel) -> (MachineModel, Option<ActionModel>) {
    match c {
        CommandModel::Play { yt_link } => (s, Some(ActionModel::Send(ClientMsg::Play { yt_link }))),
        CommandModel::Skip => (s, Some(ActionModel::Send(ClientMsg::Skip))),
    }
}

/// The transition function of the machine.
pub open spec fn next(s: MachineModel, e: EventModel) -> (MachineModel, Option<ActionModel>) {
    match e {
        EventModel::Server(m) => on_server(s, m),
        EventModel::FetchDone { seq, ok } => on_fetch_done(s, seq, ok),
        EventModel::Engine(st) => on_engine(s, st),
        EventModel::User(c) => on_user(s, c),
    }
}

/// The state at session start for the participant `me`.
pub open spec fn initial(me: Seq<char>) -> MachineModel {
    MachineModel { me, phase: Phase::Idle, latest: 0, engaged: false }
}

/// The synchronisation state of one client.
pub struct Machine {
    me: String,
    phase: Phase,
    latest: u64,
    engaged: bool,
}

impl View for Machine {
    type V = MachineModel;

    closed spec fn view(&self) -> MachineModel {
        MachineModel {
            me: self.me@,
            phase: self.phase,
            latest: self.latest as nat,
            engaged: self.engaged,
        }
    }
}

impl Machine {
    /// Well-formedness: the model is well formed and the sequence counter is
    /// a machine integer.
    pub open spec fn wf(&self) -> bool {
        model_wf(self@) && self@.latest <= u64::MAX
    }

    /// Opens a session for participant `me`: the machine is idle and the
    /// first message to send announces that nothing is loaded.
    pub fn open(me: String) -> (r: (Machine, C2S))
        ensures
            r.0.wf(),
            r.0@ == initial(me@),
            r.1@ == ClientMsg::Ready1,
    {
        (Machine { me, phase: Phase::Idle, latest: 0, engaged: false }, C2S::Ready1)
    }

    /// The current phase.
    pub fn phase(&self) -> (p: Phase)
        ensures
            p == self@.phase,
    {
        self.phase
    }

    /// Sequence number of the latest authoritative play request.
    pub fn latest_seq(&self) -> (n: u64)
        ensures
            n as nat == self@.latest,
    {
        self.latest
    }

    /// Whether the engine has to be stopped on a skip.
    pub fn is_engaged(&self) -> (b: bool)
        ensures
            b == self@.engaged,
    {
        self.engaged
    }

    /// Whether a further authoritative play request can still be numbered.
    pub fn can_number(&self) -> (b: bool)
        ensures
            b == (self@.latest < u64::MAX),
    {
        self.latest < u64::MAX
    }

    /// Advances the machine by one event and answers with the action the
    /// driver has to perform, if any.
    pub fn step(&mut self, event: Event) -> (act: Option<Action>)
        requires
            old(self).wf(),
            event@ is Server && event@->Server_0 is Play ==> old(self)@.latest < u64::MAX,
        ensures
            final(self).wf(),
            (final(self)@, action_model(act)) == next(old(self)@, event@),
    {
        match event {
            Event::Server(S2C::ConnectNotification(n)) => {
                if n.id == self.me {
                    None
                } else {
                    Some(Action::Announce { joined: true, id: n.id })
                }
            },
            Event::Server(S2C::DisconnectNotification(n)) => {
                if n.id == self.me {
                    None
                } else {
                    Some(Action::Announce { joined: false, id: n.id })
                }
            },
            Event::Server(S2C::Play { yt_link }) => {
                self.latest = self.latest + 1;
                self.phase = Phase::Downloading;
                Some(Action::Fetch { seq: self.latest, yt_link })
            },
            Event::Server(S2C::Start) => {
                if self.phase == Phase::ReadyToStart {
                    self.engaged = true;
                    Some(Action::LoadAndPlay)
                } else {
                    None
                }
            },
            Event::Server(S2C::Skip) => {
                let was: bool = self.engaged;
                self.phase = Phase::Idle;
                self.engaged = false;
                if was {
                    Some(Action::StopPlayback)
                } else {
                    None
                }
            },
            Event::FetchDone { seq, ok } => {
                if self.phase == Phase::Downloading && seq == self.latest {
                    if ok {
                        self.phase = Phase::ReadyToStart;
                        Some(Action::Send(C2S::Ready2))
                    } else {
                        self.phase = Phase::Idle;
                        Some(Action::Report(Fault::DownloadFailed))
                    }
                } else {
                    None
                }
            },
            Event::Engine(EngineState::Playing) => {
                if self.phase == Phase::ReadyToStart || self.phase == Phase::PlayingLocally {
                    self.phase = Phase::PlayingLocally;
                    self.engaged = true;
                    Some(Action::Send(C2S::Playing))
                } else {
                    None
                }
            },
            Event::Engine(EngineState::Ended) => {
                self.engaged = false;
                if self.phase == Phase::PlayingLocally {
                    self.phase = Phase::Idle;
                    Some(Action::Send(C2S::Ready1))
                } else {
                    None
                }
            },
            Event::Engine(EngineState::Error) => {
                if self.phase == Phase::PlayingLocally {
                    Some(Action::Report(Fault::PlaybackFailed))
                } else {
                    None
                }
            },
            Event::User(Command::Play { yt_link }) => Some(Action::Send(C2S::Play { yt_link })),
            Event::User(Command::Skip) => Some(Action::Send(C2S::Skip)),
        }
    }
}

} // verus!
