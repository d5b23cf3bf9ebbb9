//! Properties of the two roles together, proved from their transition functions.
use vstd::prelude::*;

use crate::notice::{NoticeView, TransferErrorView};
use crate::receiver::{
    receiver_next, received_file_name, ReceiverActionView, ReceiverEventView, ReceiverModel,
    ReceiverOutcome, ReceiverPhase,
};
use crate::sender::{
    sender_next, sender_start, SenderActionView, SenderEventView, SenderModel, SenderOutcome,
    SenderPhase,
};

verus! {

/// The receiver state after answering each of `es` in turn, starting from `m`.
pub open spec fn receiver_after(m: ReceiverModel, es: Seq<ReceiverEventView>) -> ReceiverModel
    decreases es.len(),
{
    if es.len() == 0 {
        m
    } else {
        receiver_after(receiver_next(m, es[0]).next, es.drop_first())
    }
}

/// The events of one inbound transfer that is read and saved without failure.
pub open spec fn clean_transfer(data: Seq<u8>) -> Seq<ReceiverEventView> {
    seq![ReceiverEventView::Accepted, ReceiverEventView::StreamRead(data), ReceiverEventView::Saved]
}

proof fn lemma_receiver_after_three(m: ReceiverModel, es: Seq<ReceiverEventView>)
    requires
        es.len() == 3,
    ensures
        receiver_after(m, es) == receiver_next(
            receiver_next(receiver_next(m, es[0]).next, es[1]).next,
            es[2],
        ).next,
{
    let es1 = es.drop_first();
    let es2 = es1.drop_first();
    let es3 = es2.drop_first();
    let m1 = receiver_next(m, es[0]).next;
    let m2 = receiver_next(m1, es1[0]).next;
    let m3 = receiver_next(m2, es2[0]).next;
    assert(es3.len() == 0);
    assert(receiver_after(m2, es2) == receiver_after(m3, es3));
    assert(receiver_after(m1, es1) == receiver_after(m2, es2));
    assert(receiver_after(m, es) == receiver_after(m1, es1));
    assert(es1[0] == es[1]);
    assert(es2[0] == es[2]);
}

/// Receiving a clean transfer of `data` from a listening receiver leaves it
/// listening, with exactly `data` in the received file.
pub proof fn lemma_clean_transfer_stores_payload(m: ReceiverModel, data: Seq<u8>)
    requires
        m.phase == ReceiverPhase::Listening,
    ensures
        receiver_after(m, clean_transfer(data)).phase == ReceiverPhase::Listening,
        receiver_after(m, clean_transfer(data)).stored == Some(data),
        receiver_after(m, clean_transfer(data)).port == m.port,
{
    lemma_receiver_after_three(m, clean_transfer(data));
}

/// Round trip: for every payload `data`, empty or not, a send to a non-blank
/// host whose file reads as `data` writes exactly `data` to the connection,
/// and a listening receiver that reads those bytes saves exactly them, under
/// the received file's name.
pub proof fn lemma_round_trip(host: Seq<char>, data: Seq<u8>, rx: ReceiverModel)
    requires
        host.len() > 0,
        rx.phase == ReceiverPhase::Listening,
    ensures
        ({
            let s1 = sender_next(sender_start(host).next, SenderEventView::FileRead(data));
            let s2 = sender_next(s1.next, SenderEventView::Connected);
            &&& s1.action == Some(SenderActionView::Connect(host, crate::TRANSFER_PORT))
            &&& s2.action == Some(SenderActionView::Write(data))
        }),
        ({
            let r1 = receiver_next(rx, ReceiverEventView::Accepted);
            let r2 = receiver_next(r1.next, ReceiverEventView::StreamRead(data));
            r2.action == Some(ReceiverActionView::Save(received_file_name(), data))
        }),
        receiver_after(rx, clean_transfer(data)).stored == Some(data),
{
    lemma_clean_transfer_stores_payload(rx, data);
}

/// A second transfer replaces the first entirely: after two clean transfers,
/// of `first` and then of `second`, the received file holds exactly `second`.
pub proof fn lemma_second_transfer_overwrites(m: ReceiverModel, first: Seq<u8>, second: Seq<u8>)
    requires
        m.phase == ReceiverPhase::Listening,
    ensures
        receiver_after(receiver_after(m, clean_transfer(first)), clean_transfer(second)).stored
            == Some(second),
{
    lemma_clean_transfer_stores_payload(m, first);
    lemma_clean_transfer_stores_payload(receiver_after(m, clean_transfer(first)), second);
}

/// A blank destination ends the send at once with `BlankAddress`, and the
/// ended send answers no later event: no connection is ever tried.
pub proof fn lemma_blank_host_never_connects(host: Seq<char>, e: SenderEventView)
    requires
        host.len() == 0,
    ensures
        sender_start(host).action == Some(
            SenderActionView::Finish(Err(TransferErrorView::BlankAddress)),
        ),
        sender_start(host).next.phase == SenderPhase::Done,
        sender_next(sender_start(host).next, e) == (SenderOutcome {
            next: sender_start(host).next,
            action: None,
            notice: None,
        }),
{
}

/// A refused connection ends the send with `ConnectFailure`, reported to the
/// user; nothing is written, since the ended send answers no later event.
pub proof fn lemma_connect_failure_is_reported(
    m: SenderModel,
    msg: Seq<char>,
    later: SenderEventView,
)
    requires
        m.phase == SenderPhase::Connecting,
    ensures
        sender_next(m, SenderEventView::ConnectFailed(msg)).action == Some(
            SenderActionView::Finish(Err(TransferErrorView::ConnectFailure(msg))),
        ),
        sender_next(m, SenderEventView::ConnectFailed(msg)).notice == Some(
            NoticeView::Error(TransferErrorView::ConnectFailure(msg).text()),
        ),
        sender_next(sender_next(m, SenderEventView::ConnectFailed(msg)).next, later).action
            == None::<SenderActionView>,
{
}

/// The received file changes only when a save ends: no other event, and so
/// no failed send that never reached the receiver, touches it.
pub proof fn lemma_only_saves_touch_the_file(m: ReceiverModel, e: ReceiverEventView)
    requires
        !(e is Saved),
        !(e is SaveFailed),
    ensures
        receiver_next(m, e).next.stored == m.stored,
{
}

/// An unreadable source file ends the send with `SourceFileReadFailure`,
/// reported to the user as an error, never silently.
pub proof fn lemma_unreadable_file_is_reported(m: SenderModel, msg: Seq<char>)
    requires
        m.phase == SenderPhase::ReadingFile,
    ensures
        sender_next(m, SenderEventView::FileReadFailed(msg)).action == Some(
            SenderActionView::Finish(Err(TransferErrorView::SourceFileReadFailure(msg))),
        ),
        sender_next(m, SenderEventView::FileReadFailed(msg)).notice == Some(
            NoticeView::Error(TransferErrorView::SourceFileReadFailure(msg).text()),
        ),
        sender_next(m, SenderEventView::FileReadFailed(msg)).next.phase == SenderPhase::Done,
{
}

/// Connections are taken one at a time: while one is open no other is taken,
/// a connection is opened only from the listening phase, and each save hands
/// out exactly the bytes of the one stream just read.
pub proof fn lemma_one_connection_at_a_time(m: ReceiverModel, e: ReceiverEventView)
    ensures
        (m.phase == ReceiverPhase::Reading || m.phase == ReceiverPhase::Saving) && e
            is Accepted ==> receiver_next(m, e) == (ReceiverOutcome {
            next: m,
            action: None,
            notice: None,
        }),
        receiver_next(m, e).next.phase == ReceiverPhase::Reading && m.phase
            != ReceiverPhase::Reading ==> m.phase == ReceiverPhase::Listening && e is Accepted,
        forall|path: Seq<char>, data: Seq<u8>|
            receiver_next(m, e).action == Some(ReceiverActionView::Save(path, data)) ==> m.phase
                == ReceiverPhase::Reading && e == ReceiverEventView::StreamRead(data),
{
}

} // verus!
