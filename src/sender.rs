//! The sending role: read a file, connect to a peer on the transfer port and
//! write the whole file to it in one operation.
use vstd::prelude::*;

use crate::notice::{notice_opt_view, sent_text, Notice, NoticeView, TransferError, TransferErrorView};
use crate::TRANSFER_PORT;

verus! {

/// What `str::trim` leaves of `s`.
pub uninterp spec fn trimmed(s: Seq<char>) -> Seq<char>;

/// Relies on `str::trim`: the string without its leading and trailing
/// whitespace, which depends on the characters of `s` alone.
#[verifier::external_body]
fn trim_whitespace(s: &str) -> (r: String)
    ensures
        r@ == trimmed(s@),
{
    s.trim().to_string()
}

/// Where a send stands between two actions.
#[derive(Clone, Copy, PartialEq, Eq, Structural, Debug)]
pub enum SenderPhase {
    /// The next action reads the source file.
    ReadingFile,
    /// The file was read: the next action connects to the peer.
    Connecting,
    /// The connection is open: the next action writes the payload.
    Writing,
    /// The send is over, with the outcome already handed out.
    Done,
}

/// The outcome of the sender's last action, handed back by its driver.
#[derive(Clone, Debug, PartialEq, Eq)]
pub enum SenderEvent {
    FileRead(Vec<u8>),
    FileReadFailed(String),
    Connected,
    ConnectFailed(String),
    Written,
    WriteFailed(String),
}

/// The mathematical value of a [`SenderEvent`].
pub enum SenderEventView {
    FileRead(Seq<u8>),
    FileReadFailed(Seq<char>),
    Connected,
    ConnectFailed(Seq<char>),
    Written,
    WriteFailed(Seq<char>),
}

impl View for SenderEvent {
    type V = SenderEventView;

    open spec fn view(&self) -> SenderEventView {
        match self {
            SenderEvent::FileRead(d) => SenderEventView::FileRead(d@),
            SenderEvent::FileReadFailed(m) => SenderEventView::FileReadFailed(m@),
            SenderEvent::Connected => SenderEventView::Connected,
            SenderEvent::ConnectFailed(m) => SenderEventView::ConnectFailed(m@),
            SenderEvent::Written => SenderEventView::Written,
            SenderEvent::WriteFailed(m) => SenderEventView::WriteFailed(m@),
        }
    }
}

/// What the driver of a send does next.
#[derive(Debug, PartialEq, Eq)]
pub enum SenderAction {
    /// Read the selected file whole.
    ReadFile,
    /// Open a TCP connection to `host` on `port`.
    Connect { host: String, port: u16 },
    /// Write all of `data` to the open connection, then close it.
    Write { data: Vec<u8> },
    /// The send is over, with this outcome.
    Finish { outcome: Result<(), TransferError> },
}

/// The mathematical value of a [`SenderAction`].
pub enum SenderActionView {
    ReadFile,
    Connect(Seq<char>, u16),
    Write(Seq<u8>),
    Finish(Result<(), TransferErrorView>),
}

impl View for SenderAction {
    type V = SenderActionView;

    open spec fn view(&self) -> SenderActionView {
        match self {
            SenderAction::ReadFile => SenderActionView::ReadFile,
            SenderAction::Connect { host, port } => SenderActionView::Connect(host@, *port),
            SenderAction::Write { data } => SenderActionView::Write(data@),
            SenderAction::Finish { outcome } => SenderActionView::Finish(
                match outcome {
                    Ok(()) => Ok(()),
                    Err(e) => Err(e@),
                },
            ),
        }
    }
}

/// The view of an optional action.
pub open spec fn sender_action_opt_view(a: Option<SenderAction>) -> Option<SenderActionView> {
    match a {
        Some(x) => Some(x@),
        None => None,
    }
}

/// The sender's reply to one event: the next action, if the event answered
/// the pending one, and a notice for the user, if any.
pub struct SenderStep {
    pub action: Option<SenderAction>,
    pub notice: Option<Notice>,
}

/// The abstract state of a send.
pub struct SenderModel {
    pub phase: SenderPhase,
    /// The destination host, without surrounding whitespace.
    pub host: Seq<char>,
    /// The payload read from the file and not yet handed out.
    pub data: Seq<u8>,
}

/// The abstract reply to one event.
pub struct SenderOutcome {
    pub next: SenderModel,
    pub action: Option<SenderActionView>,
    pub notice: Option<NoticeView>,
}

/// A reply that ends the send with failure `e`.
pub open spec fn fail(m: SenderModel, e: TransferErrorView) -> SenderOutcome {
    SenderOutcome {
        next: SenderModel { phase: SenderPhase::Done, data: Seq::empty(), ..m },
        action: Some(SenderActionView::Finish(Err(e))),
        notice: Some(NoticeView::Error(e.text())),
    }
}

/// How a send to `host`, given without surrounding whitespace, begins: a
/// blank host ends it at once, before any connection is tried.
pub open spec fn sender_start(host: Seq<char>) -> SenderOutcome {
    let m = SenderModel { phase: SenderPhase::ReadingFile, host, data: Seq::empty() };
    if host.len() == 0 {
        fail(m, TransferErrorView::BlankAddress)
    } else {
        SenderOutcome { next: m, action: Some(SenderActionView::ReadFile), notice: None }
    }
}

/// How a send in state `m` answers event `e`. An event that does not answer
/// the action pending in `m` changes nothing and asks for nothing.
pub open spec fn sender_next(m: SenderModel, e: SenderEventView) -> SenderOutcome {
    match (m.phase, e) {
        (SenderPhase::ReadingFile, SenderEventView::FileRead(data)) => SenderOutcome {
            next: SenderModel { phase: SenderPhase::Connecting, data, ..m },
            action: Some(SenderActionView::Connect(m.host, TRANSFER_PORT)),
            notice: None,
        },
        (SenderPhase::ReadingFile, SenderEventView::FileReadFailed(msg)) => fail(
            m,
            TransferErrorView::SourceFileReadFailure(msg),
        ),
        (SenderPhase::Connecting, SenderEventView::Connected) => SenderOutcome {
            next: SenderModel { phase: SenderPhase::Writing, data: Seq::empty(), ..m },
            action: Some(SenderActionView::Write(m.data)),
            notice: None,
        },
        (SenderPhase::Connecting, SenderEventView::ConnectFailed(msg)) => fail(
            m,
            TransferErrorView::ConnectFailure(msg),
        ),
        (SenderPhase::Writing, SenderEventView::Written) => SenderOutcome {
            next: SenderModel { phase: SenderPhase::Done, ..m },
            action: Some(SenderActionView::Finish(Ok(()))),
            notice: Some(NoticeView::Success(sent_text())),
        },
        (SenderPhase::Writing, SenderEventView::WriteFailed(msg)) => fail(
            m,
            TransferErrorView::SendWriteFailure(msg),
        ),
        _ => SenderOutcome { next: m, action: None, notice: None },
    }
}

/// One send of a file as a state machine. Its driver performs each action it
/// asks for and hands the outcome back to [`Sender::step`].
pub struct Sender {
    phase: SenderPhase,
    host: String,
    data: Vec<u8>,
}

impl View for Sender {
    type V = SenderModel;

    closed spec fn view(&self) -> SenderModel {
        SenderModel { phase: self.phase, host: self.host@, data: self.data@ }
    }
}

impl Sender {
    /// Begins a send to `host` as typed by the user: surrounding whitespace
    /// is dropped, and a blank host ends the send at once.
    pub fn new(host: &str) -> (r: (Sender, SenderStep))
        ensures
            r.0@ == sender_start(trimmed(host@)).next,
            sender_action_opt_view(r.1.action) == sender_start(trimmed(host@)).action,
            notice_opt_view(r.1.notice) == sender_start(trimmed(host@)).notice,
    {
        let t = trim_whitespace(host);
        Sender::with_trimmed_host(t)
    }

    /// Begins a send to `host`, which has no surrounding whitespace; an empty
    /// host ends the send at once.
    pub fn with_trimmed_host(host: String) -> (r: (Sender, SenderStep))
        ensures
            r.0@ == sender_start(host@).next,
            sender_action_opt_view(r.1.action) == sender_start(host@).action,
            notice_opt_view(r.1.notice) == sender_start(host@).notice,
    {
        let blank = host.as_str().is_empty();
        if blank {
            let sender = Sender { phase: SenderPhase::Done, host, data: Vec::new() };
            let e = TransferError::BlankAddress;
            let notice = e.notice();
            let step = SenderStep {
                action: Some(SenderAction::Finish { outcome: Err(e) }),
                notice: Some(notice),
            };
            (sender, step)
        } else {
            let sender = Sender { phase: SenderPhase::ReadingFile, host, data: Vec::new() };
            (sender, SenderStep { action: Some(SenderAction::ReadFile), notice: None })
        }
    }

    /// The phase the send is in.
    pub fn phase(&self) -> (r: SenderPhase)
        ensures
            r == self@.phase,
    {
        self.phase
    }

    /// Ends the send with failure `e`.
    fn fail_with(&mut self, e: TransferError) -> (r: SenderStep)
        ensures
            final(self)@ == fail(old(self)@, e@).next,
            sender_action_opt_view(r.action) == fail(old(self)@, e@).action,
            notice_opt_view(r.notice) == fail(old(self)@, e@).notice,
    {
        self.phase = SenderPhase::Done;
        self.data = Vec::new();
        let notice = e.notice();
        SenderStep { action: Some(SenderAction::Finish { outcome: Err(e) }), notice: Some(notice) }
    }

    /// Answers the outcome of the pending action, as [`sender_next`] says.
    pub fn step(&mut self, event: SenderEvent) -> (r: SenderStep)
        ensures
            final(self)@ == sender_next(old(self)@, event@).next,
            sender_action_opt_view(r.action) == sender_next(old(self)@, event@).action,
            notice_opt_view(r.notice) == sender_next(old(self)@, event@).notice,
    {
        match event {
            SenderEvent::FileRead(data) => {
                if self.phase == SenderPhase::ReadingFile {
                    self.phase = SenderPhase::Connecting;
                    self.data = data;
                    let host = self.host.clone();
                    SenderStep {
                        action: Some(SenderAction::Connect { host, port: TRANSFER_PORT }),
                        notice: None,
                    }
                } else {
                    SenderStep { action: None, notice: None }
                }
            },
            SenderEvent::FileReadFailed(msg) => {
                if self.phase == SenderPhase::ReadingFile {
                    self.fail_with(TransferError::SourceFileReadFailure(msg))
                } else {
                    SenderStep { action: None, notice: None }
                }
            },
            SenderEvent::Connected => {
                if self.phase == SenderPhase::Connecting {
                    self.phase = SenderPhase::Writing;
                    let mut data: Vec<u8> = Vec::new();
                    std::mem::swap(&mut data, &mut self.data);
                    SenderStep { action: Some(SenderAction::Write { data }), notice: None }
                } else {
                    SenderStep { action: None, notice: None }
                }
            },
            SenderEvent::ConnectFailed(msg) => {
                if self.phase == SenderPhase::Connecting {
                    self.fail_with(TransferError::ConnectFailure(msg))
                } else {
                    SenderStep { action: None, notice: None }
                }
            },
            SenderEvent::Written => {
                if self.phase == SenderPhase::Writing {
                    self.phase = SenderPhase::Done;
                    let text = String::from_str("\u{2705} File sent!");
                    SenderStep {
                        action: Some(SenderAction::Finish { outcome: Ok(()) }),
                        notice: Some(Notice::Success(text)),
                    }
                } else {
                    SenderStep { action: None, notice: None }
                }
            },
            SenderEvent::WriteFailed(msg) => {
                if self.phase == SenderPhase::Writing {
                    self.fail_with(TransferError::SendWriteFailure(msg))
                } else {
                    SenderStep { action: None, notice: None }
                }
            },
        }
    }
}

} // verus!
