//! What the transfer roles report to the user, and the failures they can meet.
use vstd::prelude::*;

verus! {

/// The text of the success notice that the receiver gives after saving a payload.
pub open spec fn received_text() -> Seq<char> {
    "\u{2705} File received as 'received_file'"@
}

/// The text of the success notice that the sender gives after writing a payload.
pub open spec fn sent_text() -> Seq<char> {
    "\u{2705} File sent!"@
}

/// A transient notification for the presentation layer.
#[derive(Clone, Debug, PartialEq, Eq)]
pub enum Notice {
    Success(String),
    Error(String),
}

/// The mathematical value of a [`Notice`].
pub enum NoticeView {
    Success(Seq<char>),
    Error(Seq<char>),
}

impl View for Notice {
    type V = NoticeView;

    open spec fn view(&self) -> NoticeView {
        match self {
            Notice::Success(m) => NoticeView::Success(m@),
            Notice::Error(m) => NoticeView::Error(m@),
        }
    }
}

/// The view of an optional notice.
pub open spec fn notice_opt_view(n: Option<Notice>) -> Option<NoticeView> {
    match n {
        Some(x) => Some(x@),
        None => None,
    }
}

/// A failure met by either role. Each carries the text of the underlying
/// I/O error, if there was one.
#[derive(Clone, Debug, PartialEq, Eq)]
pub enum TransferError {
    /// The receiver could not listen on its port; it receives nothing more.
    BindFailure(String),
    /// Accepting an inbound connection failed; the receiver goes on.
    AcceptFailure(String),
    /// Reading an inbound stream failed; the receiver goes on.
    ReadFailure(String),
    /// Saving a received payload failed; the receiver goes on.
    WriteToDiskFailure(String),
    /// The file to send could not be read; the send ends.
    SourceFileReadFailure(String),
    /// The peer could not be reached; the send ends.
    ConnectFailure(String),
    /// Writing the payload to the peer failed; the send ends.
    SendWriteFailure(String),
    /// The destination address is empty or blank; no connection is tried.
    BlankAddress,
}

/// The mathematical value of a [`TransferError`].
pub enum TransferErrorView {
    BindFailure(Seq<char>),
    AcceptFailure(Seq<char>),
    ReadFailure(Seq<char>),
    WriteToDiskFailure(Seq<char>),
    SourceFileReadFailure(Seq<char>),
    ConnectFailure(Seq<char>),
    SendWriteFailure(Seq<char>),
    BlankAddress,
}

impl View for TransferError {
    type V = TransferErrorView;

    open spec fn view(&self) -> TransferErrorView {
        match self {
            TransferError::BindFailure(m) => TransferErrorView::BindFailure(m@),
            TransferError::AcceptFailure(m) => TransferErrorView::AcceptFailure(m@),
            TransferError::ReadFailure(m) => TransferErrorView::ReadFailure(m@),
            TransferError::WriteToDiskFailure(m) => TransferErrorView::WriteToDiskFailure(m@),
            TransferError::SourceFileReadFailure(m) => TransferErrorView::SourceFileReadFailure(m@),
            TransferError::ConnectFailure(m) => TransferErrorView::ConnectFailure(m@),
            TransferError::SendWriteFailure(m) => TransferErrorView::SendWriteFailure(m@),
            TransferError::BlankAddress => TransferErrorView::BlankAddress,
        }
    }
}

impl TransferErrorView {
    /// The text shown to the user for this failure.
    pub open spec fn text(self) -> Seq<char> {
        match self {
            TransferErrorView::BindFailure(m) => "Failed to listen for files: "@ + m
                + " Please restart app"@,
            TransferErrorView::AcceptFailure(m) => "Connection failed: "@ + m,
            TransferErrorView::ReadFailure(m) => "Error reading stream: "@ + m,
            TransferErrorView::WriteToDiskFailure(m) => "Error saving file: "@ + m,
            TransferErrorView::SourceFileReadFailure(m) => "\u{274c} Failed to read file: "@ + m,
            TransferErrorView::ConnectFailure(m) => "\u{274c} Failed to connect: "@ + m,
            TransferErrorView::SendWriteFailure(m) => "\u{274c} Failed to send: "@ + m,
            TransferErrorView::BlankAddress => "\u{274c} No destination address"@,
        }
    }
}

/// `prefix` followed by `detail`.
fn joined(prefix: &str, detail: &String) -> (r: String)
    ensures
        r@ == prefix@ + detail@,
{
    let mut s = String::from_str(prefix);
    s.append(detail.as_str());
    s
}

impl TransferError {
    /// The text shown to the user for this failure.
    pub fn message(&self) -> (r: String)
        ensures
            r@ == self@.text(),
    {
        match self {
            TransferError::BindFailure(m) => {
                let mut s = joined("Failed to listen for files: ", m);
                s.append(" Please restart app");
                s
            },
            TransferError::AcceptFailure(m) => joined("Connection failed: ", m),
            TransferError::ReadFailure(m) => joined("Error reading stream: ", m),
            TransferError::WriteToDiskFailure(m) => joined("Error saving file: ", m),
            TransferError::SourceFileReadFailure(m) => joined("\u{274c} Failed to read file: ", m),
            TransferError::ConnectFailure(m) => joined("\u{274c} Failed to connect: ", m),
            TransferError::SendWriteFailure(m) => joined("\u{274c} Failed to send: ", m),
            TransferError::BlankAddress => String::from_str("\u{274c} No destination address"),
        }
    }

    /// The error notice that reports this failure.
    pub fn notice(&self) -> (r: Notice)
        ensures
            r@ == NoticeView::Error(self@.text()),
    {
        Notice::Error(self.message())
    }
}

} // verus!
