use std::io;

use errnorm::{Error, IoFailure, IoKindClass};

fn runtime() -> tokio::runtime::Runtime {
    tokio::runtime::Builder::new_current_thread()
        .enable_time()
        .build()
        .unwrap()
}

#[test]
fn eof_kind_yields_unexpected_eof() {
    let raw = io::Error::new(io::ErrorKind::UnexpectedEof, "boom");
    assert_eq!(Error::from_io(raw), Error::UnexpectedEof);
}

#[test]
fn eof_kind_without_payload_yields_unexpected_eof() {
    let raw = io::Error::from(io::ErrorKind::UnexpectedEof);
    assert_eq!(Error::from_io(raw), Error::UnexpectedEof);
}

#[test]
fn uncategorized_with_eof_sentinel_yields_unexpected_eof() {
    let raw = io::Error::new(io::ErrorKind::Other, "EOF");
    assert_eq!(Error::from_io(raw), Error::UnexpectedEof);
}

#[test]
fn uncategorized_with_near_sentinel_is_io_fault() {
    let raw = io::Error::new(io::ErrorKind::Other, "EOF2");
    let expected = io::ErrorKind::Other.to_string();
    match Error::from_io(raw) {
        Error::IO(m) => assert_eq!(m, expected),
        other => panic!("expected an I/O fault, got {other:?}"),
    }
}

#[test]
fn uncategorized_with_containing_sentinel_is_io_fault() {
    let raw = io::Error::new(io::ErrorKind::Other, "an EOF happened");
    assert!(matches!(Error::from_io(raw), Error::IO(_)));
}

#[test]
fn uncategorized_without_payload_is_io_fault() {
    let raw = io::Error::from(io::ErrorKind::Other);
    let expected = io::ErrorKind::Other.to_string();
    match Error::from_io(raw) {
        Error::IO(m) => assert_eq!(m, expected),
        other => panic!("expected an I/O fault, got {other:?}"),
    }
}

#[test]
fn other_kind_message_is_the_kind_text_not_the_payload() {
    let raw = io::Error::new(io::ErrorKind::PermissionDenied, "secret payload");
    let expected = io::ErrorKind::PermissionDenied.to_string();
    match Error::from_io(raw) {
        Error::IO(m) => {
            assert_eq!(m, expected);
            assert_ne!(m, "secret payload");
        }
        other => panic!("expected an I/O fault, got {other:?}"),
    }
}

#[test]
fn dropped_oneshot_sender_is_unexpected_behavior() {
    let rt = runtime();
    let (tx, rx) = tokio::sync::oneshot::channel::<u8>();
    drop(tx);
    let raw = rt.block_on(rx).unwrap_err();
    assert_eq!(
        Error::from_oneshot_recv(raw),
        Error::UnexpectedBehavior("channel closed".to_string())
    );
}

#[test]
fn send_to_dropped_receiver_is_unexpected_behavior() {
    let (tx, rx) = tokio::sync::mpsc::channel::<u32>(1);
    drop(rx);
    let raw = tx.blocking_send(7).unwrap_err();
    assert_eq!(
        Error::from_mpsc_send(raw),
        Error::UnexpectedBehavior("channel closed".to_string())
    );
}

#[test]
fn elapsed_deadline_is_unexpected_behavior() {
    let rt = runtime();
    let raw = rt
        .block_on(async {
            tokio::time::timeout(
                std::time::Duration::from_millis(0),
                std::future::pending::<()>(),
            )
            .await
        })
        .unwrap_err();
    assert_eq!(
        Error::from_elapsed(raw),
        Error::UnexpectedBehavior("deadline has elapsed".to_string())
    );
}

#[test]
fn custom_decode_message_is_bad_message() {
    let e = Error::custom("invalid tag 7".to_string());
    assert_eq!(e, Error::BadMessage("invalid tag 7".to_string()));
}

#[test]
fn classify_end_of_stream_ignores_payload_and_text() {
    let f = IoFailure {
        class: IoKindClass::EndOfStream,
        kind_text: "unexpected end of file".to_string(),
        payload: Some("anything".to_string()),
    };
    assert_eq!(Error::classify_io(f), Error::UnexpectedEof);
}

#[test]
fn classify_uncategorized_exact_sentinel() {
    let f = IoFailure {
        class: IoKindClass::Uncategorized,
        kind_text: "other error".to_string(),
        payload: Some("EOF".to_string()),
    };
    assert_eq!(Error::classify_io(f), Error::UnexpectedEof);
}

#[test]
fn classify_uncategorized_absent_payload() {
    let f = IoFailure {
        class: IoKindClass::Uncategorized,
        kind_text: "other error".to_string(),
        payload: None,
    };
    assert_eq!(Error::classify_io(f), Error::IO("other error".to_string()));
}

#[test]
fn classify_other_kind_keeps_kind_text() {
    let f = IoFailure {
        class: IoKindClass::Other,
        kind_text: "permission denied".to_string(),
        payload: Some("EOF".to_string()),
    };
    assert_eq!(
        Error::classify_io(f),
        Error::IO("permission denied".to_string())
    );
}

#[test]
fn rendering_prefixes_each_kind() {
    assert_eq!(Error::IO("oops".to_string()).render(), "I/O: oops");
    assert_eq!(Error::UnexpectedEof.render(), "Unexpected EOF on stream");
    assert_eq!(
        Error::BadMessage("invalid tag 7".to_string()).render(),
        "Bad message: invalid tag 7"
    );
    assert_eq!(
        Error::UnexpectedBehavior("channel closed".to_string()).render(),
        "Unexpected behavior: channel closed"
    );
}
