//! The receiving role: listen on a port, take one connection at a time, read
//! its whole stream and save it to a fixed file, overwriting what was there.
use vstd::prelude::*;

use crate::notice::{
    notice_opt_view, received_text, Notice, NoticeView, TransferError, TransferErrorView,
};
use crate::TRANSFER_PORT;

verus! {

/// The name of the file in the working directory that each received payload replaces.
pub open spec fn received_file_name() -> Seq<char> {
    "received_file"@
}

/// Where the receiver stands between two actions.
#[derive(Clone, Copy, PartialEq, Eq, Structural, Debug)]
pub enum ReceiverPhase {
    /// Not yet listening: the next action binds the port.
    Unbound,
    /// Listening, with no connection open: the next action accepts one.
    Listening,
    /// One connection is open: the next action reads it to its end.
    Reading,
    /// A payload was read: the next action saves it.
    Saving,
    /// Nothing more is received.
    Stopped,
}

/// The outcome of the receiver's last action, handed back by its driver.
#[derive(Clone, Debug, PartialEq, Eq)]
pub enum ReceiverEvent {
    Bound,
    BindFailed(String),
    Accepted,
    AcceptFailed(String),
    StreamRead(Vec<u8>),
    StreamFailed(String),
    Saved,
    SaveFailed(String),
    /// A request to stop receiving, accepted in any phase.
    Shutdown,
}

/// The mathematical value of a [`ReceiverEvent`].
pub enum ReceiverEventView {
    Bound,
    BindFailed(Seq<char>),
    Accepted,
    AcceptFailed(Seq<char>),
    StreamRead(Seq<u8>),
    StreamFailed(Seq<char>),
    Saved,
    SaveFailed(Seq<char>),
    Shutdown,
}

impl View for ReceiverEvent {
    type V = ReceiverEventView;

    open spec fn view(&self) -> ReceiverEventView {
        match self {
            ReceiverEvent::Bound => ReceiverEventView::Bound,
            ReceiverEvent::BindFailed(m) => ReceiverEventView::BindFailed(m@),
            ReceiverEvent::Accepted => ReceiverEventView::Accepted,
            ReceiverEvent::AcceptFailed(m) => ReceiverEventView::AcceptFailed(m@),
            ReceiverEvent::StreamRead(d) => ReceiverEventView::StreamRead(d@),
            ReceiverEvent::StreamFailed(m) => ReceiverEventView::StreamFailed(m@),
            ReceiverEvent::Saved => ReceiverEventView::Saved,
            ReceiverEvent::SaveFailed(m) => ReceiverEventView::SaveFailed(m@),
            ReceiverEvent::Shutdown => ReceiverEventView::Shutdown,
        }
    }
}

/// What the driver of a receiver does next.
#[derive(Clone, Debug, PartialEq, Eq)]
pub enum ReceiverAction {
    /// Listen on `port` on all interfaces.
    Bind { port: u16 },
    /// Wait for the next inbound connection.
    Accept,
    /// Read the open connection until the peer closes it.
    ReadToEnd,
    /// Write `data` to the file at `path`, replacing its contents.
    Save { path: String, data: Vec<u8> },
    /// Stop receiving.
    Stop,
}

/// The mathematical value of a [`ReceiverAction`].
pub enum ReceiverActionView {
    Bind(u16),
    Accept,
    ReadToEnd,
    Save(Seq<char>, Seq<u8>),
    Stop,
}

impl View for ReceiverAction {
    type V = ReceiverActionView;

    open spec fn view(&self) -> ReceiverActionView {
        match self {
            ReceiverAction::Bind { port } => ReceiverActionView::Bind(*port),
            ReceiverAction::Accept => ReceiverActionView::Accept,
            ReceiverAction::ReadToEnd => ReceiverActionView::ReadToEnd,
            ReceiverAction::Save { path, data } => ReceiverActionView::Save(path@, data@),
            ReceiverAction::Stop => ReceiverActionView::Stop,
        }
    }
}

/// The view of an optional action.
pub open spec fn action_opt_view(a: Option<ReceiverAction>) -> Option<ReceiverActionView> {
    match a {
        Some(x) => Some(x@),
        None => None,
    }
}

/// The receiver's reply to one event: the next action, if the event answered
/// the pending one, and a notice for the user, if any.
pub struct ReceiverStep {
    pub action: Option<ReceiverAction>,
    pub notice: Option<Notice>,
}

/// The abstract state of a receiver.
pub struct ReceiverModel {
    pub phase: ReceiverPhase,
    pub port: u16,
    /// The contents that the last save left in the received file: `None`
    /// before the first save, and after a failed one, which may have left
    /// anything there.
    pub stored: Option<Seq<u8>>,
    /// The payload handed out by the pending save.
    pub pending: Seq<u8>,
}

/// The abstract reply to one event.
pub struct ReceiverOutcome {
    pub next: ReceiverModel,
    pub action: Option<ReceiverActionView>,
    pub notice: Option<NoticeView>,
}

/// A reply that moves to `next` and asks for `action`.
pub open spec fn reply(
    next: ReceiverModel,
    action: ReceiverActionView,
    notice: Option<NoticeView>,
) -> ReceiverOutcome {
    ReceiverOutcome { next, action: Some(action), notice }
}

/// The same model in another phase.
pub open spec fn in_phase(m: ReceiverModel, phase: ReceiverPhase) -> ReceiverModel {
    ReceiverModel { phase, ..m }
}

/// The error notice for a failure.
pub open spec fn error_notice(e: TransferErrorView) -> Option<NoticeView> {
    Some(NoticeView::Error(e.text()))
}

/// How a receiver in state `m` answers event `e`.
///
/// An event that does not answer the action pending in `m` changes nothing
/// and asks for nothing; in particular a connection is taken only while none
/// is open.
pub open spec fn receiver_next(m: ReceiverModel, e: ReceiverEventView) -> ReceiverOutcome {
    match (m.phase, e) {
        (ReceiverPhase::Stopped, _) => ReceiverOutcome { next: m, action: None, notice: None },
        (_, ReceiverEventView::Shutdown) => reply(
            in_phase(m, ReceiverPhase::Stopped),
            ReceiverActionView::Stop,
            None,
        ),
        (ReceiverPhase::Unbound, ReceiverEventView::Bound) => reply(
            in_phase(m, ReceiverPhase::Listening),
            ReceiverActionView::Accept,
            None,
        ),
        (ReceiverPhase::Unbound, ReceiverEventView::BindFailed(msg)) => reply(
            in_phase(m, ReceiverPhase::Stopped),
            ReceiverActionView::Stop,
            error_notice(TransferErrorView::BindFailure(msg)),
        ),
        (ReceiverPhase::Listening, ReceiverEventView::Accepted) => reply(
            in_phase(m, ReceiverPhase::Reading),
            ReceiverActionView::ReadToEnd,
            None,
        ),
        (ReceiverPhase::Listening, ReceiverEventView::AcceptFailed(msg)) => reply(
            m,
            ReceiverActionView::Accept,
            error_notice(TransferErrorView::AcceptFailure(msg)),
        ),
        (ReceiverPhase::Reading, ReceiverEventView::StreamRead(data)) => reply(
            ReceiverModel { phase: ReceiverPhase::Saving, pending: data, ..m },
            ReceiverActionView::Save(received_file_name(), data),
            None,
        ),
        (ReceiverPhase::Reading, ReceiverEventView::StreamFailed(msg)) => reply(
            in_phase(m, ReceiverPhase::Listening),
            ReceiverActionView::Accept,
            error_notice(TransferErrorView::ReadFailure(msg)),
        ),
        (ReceiverPhase::Saving, ReceiverEventView::Saved) => reply(
            ReceiverModel {
                phase: ReceiverPhase::Listening,
                stored: Some(m.pending),
                pending: Seq::empty(),
                ..m
            },
            ReceiverActionView::Accept,
            Some(NoticeView::Success(received_text())),
        ),
        (ReceiverPhase::Saving, ReceiverEventView::SaveFailed(msg)) => reply(
            ReceiverModel {
                phase: ReceiverPhase::Listening,
                stored: None,
                pending: Seq::empty(),
                ..m
            },
            ReceiverActionView::Accept,
            error_notice(TransferErrorView::WriteToDiskFailure(msg)),
        ),
        _ => ReceiverOutcome { next: m, action: None, notice: None },
    }
}

/// The receiving role as a state machine. Its driver performs each action
/// it asks for and hands the outcome back to [`Receiver::step`].
pub struct Receiver {
    phase: ReceiverPhase,
    port: u16,
    stored: Ghost<Option<Seq<u8>>>,
    pending: Ghost<Seq<u8>>,
}

impl View for Receiver {
    type V = ReceiverModel;

    closed spec fn view(&self) -> ReceiverModel {
        ReceiverModel {
            phase: self.phase,
            port: self.port,
            stored: self.stored@,
            pending: self.pending@,
        }
    }
}

impl Receiver {
    /// A receiver that will listen on `port`, with nothing received yet.
    pub fn new(port: u16) -> (r: Receiver)
        ensures
            r@ == (ReceiverModel {
                phase: ReceiverPhase::Unbound,
                port,
                stored: None,
                pending: Seq::empty(),
            }),
    {
        Receiver { phase: ReceiverPhase::Unbound, port, stored: Ghost(None), pending: Ghost(Seq::empty()) }
    }

    /// A receiver on the fixed transfer port.
    pub fn on_transfer_port() -> (r: Receiver)
        ensures
            r@ == (ReceiverModel {
                phase: ReceiverPhase::Unbound,
                port: TRANSFER_PORT,
                stored: None,
                pending: Seq::empty(),
            }),
    {
        Receiver::new(TRANSFER_PORT)
    }

    /// The phase the receiver is in.
    pub fn phase(&self) -> (r: ReceiverPhase)
        ensures
            r == self@.phase,
    {
        self.phase
    }

    /// The port the receiver listens on.
    pub fn port(&self) -> (r: u16)
        ensures
            r == self@.port,
    {
        self.port
    }

    /// The first action: bind the receiver's port.
    pub fn start(&self) -> (r: ReceiverAction)
        ensures
            r@ == ReceiverActionView::Bind(self@.port),
    {
        ReceiverAction::Bind { port: self.port }
    }

    /// Answers the outcome of the pending action, as [`receiver_next`] says.
    pub fn step(&mut self, event: ReceiverEvent) -> (r: ReceiverStep)
        ensures
            final(self)@ == receiver_next(old(self)@, event@).next,
            action_opt_view(r.action) == receiver_next(old(self)@, event@).action,
            notice_opt_view(r.notice) == receiver_next(old(self)@, event@).notice,
    {
        if self.phase == ReceiverPhase::Stopped {
            return ReceiverStep { action: None, notice: None };
        }
        match event {
            ReceiverEvent::Shutdown => {
                self.phase = ReceiverPhase::Stopped;
                ReceiverStep { action: Some(ReceiverAction::Stop), notice: None }
            },
            ReceiverEvent::Bound => {
                if self.phase == ReceiverPhase::Unbound {
                    self.phase = ReceiverPhase::Listening;
                    ReceiverStep { action: Some(ReceiverAction::Accept), notice: None }
                } else {
                    ReceiverStep { action: None, notice: None }
                }
            },
            ReceiverEvent::BindFailed(msg) => {
                if self.phase == ReceiverPhase::Unbound {
                    self.phase = ReceiverPhase::Stopped;
                    let e = TransferError::BindFailure(msg);
                    ReceiverStep { action: Some(ReceiverAction::Stop), notice: Some(e.notice()) }
                } else {
                    ReceiverStep { action: None, notice: None }
                }
            },
            ReceiverEvent::Accepted => {
                if self.phase == ReceiverPhase::Listening {
                    self.phase = ReceiverPhase::Reading;
                    ReceiverStep { action: Some(ReceiverAction::ReadToEnd), notice: None }
                } else {
                    ReceiverStep { action: None, notice: None }
                }
            },
            ReceiverEvent::AcceptFailed(msg) => {
                if self.phase == ReceiverPhase::Listening {
                    let e = TransferError::AcceptFailure(msg);
                    ReceiverStep { action: Some(ReceiverAction::Accept), notice: Some(e.notice()) }
                } else {
                    ReceiverStep { action: None, notice: None }
                }
            },
            ReceiverEvent::StreamRead(data) => {
                if self.phase == ReceiverPhase::Reading {
                    self.phase = ReceiverPhase::Saving;
                    self.pending = Ghost(data@);
                    let path = String::from_str("received_file");
                    ReceiverStep { action: Some(ReceiverAction::Save { path, data }), notice: None }
                } else {
                    ReceiverStep { action: None, notice: None }
                }
            },
            ReceiverEvent::StreamFailed(msg) => {
                if self.phase == ReceiverPhase::Reading {
                    self.phase = ReceiverPhase::Listening;
                    let e = TransferError::ReadFailure(msg);
                    ReceiverStep { action: Some(ReceiverAction::Accept), notice: Some(e.notice()) }
                } else {
                    ReceiverStep { action: None, notice: None }
                }
            },
            ReceiverEvent::Saved => {
                if self.phase == ReceiverPhase::Saving {
                    self.phase = ReceiverPhase::Listening;
                    self.stored = Ghost(Some(self.pending@));
                    self.pending = Ghost(Seq::empty());
                    let text = String::from_str("\u{2705} File received as 'received_file'");
                    ReceiverStep { action: Some(ReceiverAction::Accept), notice: Some(Notice::Success(text)) }
                } else {
                    ReceiverStep { action: None, notice: None }
                }
            },
            ReceiverEvent::SaveFailed(msg) => {
                if self.phase == ReceiverPhase::Saving {
                    self.phase = ReceiverPhase::Listening;
                    self.stored = Ghost(None);
                    self.pending = Ghost(Seq::empty());
                    let e = TransferError::WriteToDiskFailure(msg);
                    ReceiverStep { action: Some(ReceiverAction::Accept), notice: Some(e.notice()) }
                } else {
                    ReceiverStep { action: None, notice: None }
                }
            },
        }
    }
}

} // verus!
