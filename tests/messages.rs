use file_share::notice::{Notice, TransferError};

#[test]
fn each_failure_has_its_message() {
    let cases = vec![
        (
            TransferError::BindFailure("e".to_string()),
            "Failed to listen for files: e Please restart app",
        ),
        (TransferError::AcceptFailure("e".to_string()), "Connection failed: e"),
        (TransferError::ReadFailure("e".to_string()), "Error reading stream: e"),
        (TransferError::WriteToDiskFailure("e".to_string()), "Error saving file: e"),
        (TransferError::SourceFileReadFailure("e".to_string()), "\u{274c} Failed to read file: e"),
        (TransferError::ConnectFailure("e".to_string()), "\u{274c} Failed to connect: e"),
        (TransferError::SendWriteFailure("e".to_string()), "\u{274c} Failed to send: e"),
        (TransferError::BlankAddress, "\u{274c} No destination address"),
    ];
    for (error, text) in cases {
        assert_eq!(error.message(), text);
        assert_eq!(error.notice(), Notice::Error(text.to_string()));
    }
}

#[test]
fn empty_detail_keeps_the_prefix() {
    assert_eq!(TransferError::ConnectFailure(String::new()).message(), "\u{274c} Failed to connect: ");
}
