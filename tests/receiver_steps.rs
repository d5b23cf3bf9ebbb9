use file_share::notice::Notice;
use file_share::receiver::{Receiver, ReceiverAction, ReceiverEvent, ReceiverPhase};
use file_share::TRANSFER_PORT;

fn listening() -> Receiver {
    let mut rx = Receiver::on_transfer_port();
    let step = rx.step(ReceiverEvent::Bound);
    assert_eq!(step.action, Some(ReceiverAction::Accept));
    assert_eq!(step.notice, None);
    rx
}

fn receive(rx: &mut Receiver, data: Vec<u8>) -> Vec<u8> {
    assert_eq!(rx.step(ReceiverEvent::Accepted).action, Some(ReceiverAction::ReadToEnd));
    let step = rx.step(ReceiverEvent::StreamRead(data));
    let saved = match step.action {
        Some(ReceiverAction::Save { path, data }) => {
            assert_eq!(path, "received_file");
            data
        }
        other => panic!("expected a save, got {:?}", other),
    };
    let done = rx.step(ReceiverEvent::Saved);
    assert_eq!(done.action, Some(ReceiverAction::Accept));
    assert_eq!(
        done.notice,
        Some(Notice::Success("\u{2705} File received as 'received_file'".to_string()))
    );
    saved
}

#[test]
fn starts_by_binding_the_transfer_port() {
    let rx = Receiver::on_transfer_port();
    assert_eq!(TRANSFER_PORT, 8080);
    assert_eq!(rx.port(), 8080);
    assert_eq!(rx.phase(), ReceiverPhase::Unbound);
    assert_eq!(rx.start(), ReceiverAction::Bind { port: 8080 });
    assert_eq!(Receiver::new(9000).start(), ReceiverAction::Bind { port: 9000 });
}

#[test]
fn saves_the_bytes_read_unchanged() {
    let mut rx = listening();
    let payload: Vec<u8> = vec![0, 1, 2, 255, 10, 13];
    assert_eq!(receive(&mut rx, payload.clone()), payload);
    assert_eq!(rx.phase(), ReceiverPhase::Listening);
}

#[test]
fn saves_an_empty_payload() {
    let mut rx = listening();
    assert_eq!(receive(&mut rx, Vec::new()), Vec::<u8>::new());
}

#[test]
fn second_transfer_saves_only_its_own_bytes() {
    let mut rx = listening();
    assert_eq!(receive(&mut rx, b"first transfer, longer".to_vec()), b"first transfer, longer".to_vec());
    assert_eq!(receive(&mut rx, b"second".to_vec()), b"second".to_vec());
}

#[test]
fn bind_failure_stops_receiving() {
    let mut rx = Receiver::on_transfer_port();
    let step = rx.step(ReceiverEvent::BindFailed("address in use".to_string()));
    assert_eq!(step.action, Some(ReceiverAction::Stop));
    assert_eq!(
        step.notice,
        Some(Notice::Error(
            "Failed to listen for files: address in use Please restart app".to_string()
        ))
    );
    assert_eq!(rx.phase(), ReceiverPhase::Stopped);
    let later = rx.step(ReceiverEvent::Bound);
    assert_eq!(later.action, None);
    assert_eq!(later.notice, None);
    assert_eq!(rx.phase(), ReceiverPhase::Stopped);
}

#[test]
fn accept_failure_is_reported_and_listening_goes_on() {
    let mut rx = listening();
    let step = rx.step(ReceiverEvent::AcceptFailed("too many open files".to_string()));
    assert_eq!(step.action, Some(ReceiverAction::Accept));
    assert_eq!(
        step.notice,
        Some(Notice::Error("Connection failed: too many open files".to_string()))
    );
    assert_eq!(rx.phase(), ReceiverPhase::Listening);
}

#[test]
fn read_failure_is_reported_and_listening_goes_on() {
    let mut rx = listening();
    rx.step(ReceiverEvent::Accepted);
    let step = rx.step(ReceiverEvent::StreamFailed("connection reset".to_string()));
    assert_eq!(step.action, Some(ReceiverAction::Accept));
    assert_eq!(
        step.notice,
        Some(Notice::Error("Error reading stream: connection reset".to_string()))
    );
    assert_eq!(rx.phase(), ReceiverPhase::Listening);
}

#[test]
fn save_failure_is_reported_and_listening_goes_on() {
    let mut rx = listening();
    rx.step(ReceiverEvent::Accepted);
    rx.step(ReceiverEvent::StreamRead(vec![7, 7]));
    assert_eq!(rx.phase(), ReceiverPhase::Saving);
    let step = rx.step(ReceiverEvent::SaveFailed("read-only file system".to_string()));
    assert_eq!(step.action, Some(ReceiverAction::Accept));
    assert_eq!(
        step.notice,
        Some(Notice::Error("Error saving file: read-only file system".to_string()))
    );
    assert_eq!(rx.phase(), ReceiverPhase::Listening);
}

#[test]
fn no_second_connection_while_one_is_open() {
    let mut rx = listening();
    rx.step(ReceiverEvent::Accepted);
    let step = rx.step(ReceiverEvent::Accepted);
    assert_eq!(step.action, None);
    assert_eq!(rx.phase(), ReceiverPhase::Reading);
    let step = rx.step(ReceiverEvent::StreamRead(b"one".to_vec()));
    assert_eq!(
        step.action,
        Some(ReceiverAction::Save { path: "received_file".to_string(), data: b"one".to_vec() })
    );
    let step = rx.step(ReceiverEvent::Accepted);
    assert_eq!(step.action, None);
    assert_eq!(rx.phase(), ReceiverPhase::Saving);
}

#[test]
fn events_out_of_turn_are_ignored() {
    let mut rx = Receiver::on_transfer_port();
    let step = rx.step(ReceiverEvent::Saved);
    assert_eq!(step.action, None);
    assert_eq!(step.notice, None);
    assert_eq!(rx.phase(), ReceiverPhase::Unbound);
    let step = rx.step(ReceiverEvent::StreamRead(vec![1]));
    assert_eq!(step.action, None);
    assert_eq!(rx.phase(), ReceiverPhase::Unbound);
}

#[test]
fn shutdown_stops_in_any_phase() {
    let mut rx = listening();
    rx.step(ReceiverEvent::Accepted);
    let step = rx.step(ReceiverEvent::Shutdown);
    assert_eq!(step.action, Some(ReceiverAction::Stop));
    assert_eq!(step.notice, None);
    assert_eq!(rx.phase(), ReceiverPhase::Stopped);
    assert_eq!(rx.step(ReceiverEvent::Shutdown).action, None);
}
