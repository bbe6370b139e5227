use stdout_dup::engine::{forward_step, replay_forward, DupItem, ReadEvent};

#[test]
fn chunk_is_forwarded_and_published() {
    let outcome = forward_step(ReadEvent::Chunk(b"build ok\n".to_vec()));
    assert_eq!(outcome.forward.as_deref(), Some(b"build ok\n".as_slice()));
    match outcome.publish {
        Some(DupItem::Text(t)) => assert_eq!(t, "build ok\n"),
        _ => panic!("a chunk must be published as text"),
    }
    assert!(!outcome.stop);
}

#[test]
fn read_error_is_terminal() {
    let err = std::io::Error::new(std::io::ErrorKind::BrokenPipe, "gone");
    let outcome = forward_step(ReadEvent::Failed(err));
    assert!(outcome.forward.is_none());
    match outcome.publish {
        Some(DupItem::Failed(e)) => {
            assert_eq!(e.kind(), std::io::ErrorKind::BrokenPipe);
        },
        _ => panic!("a read error must be published"),
    }
    assert!(outcome.stop);
}

#[test]
fn end_of_stream_stops_silently() {
    let outcome = forward_step(ReadEvent::Closed);
    assert!(outcome.forward.is_none());
    assert!(outcome.publish.is_none());
    assert!(outcome.stop);
}

#[test]
fn invalid_utf8_is_decoded_lossily() {
    let outcome = forward_step(ReadEvent::Chunk(vec![0xff, b'a']));
    assert_eq!(outcome.forward.as_deref(), Some([0xff, b'a'].as_slice()));
    match outcome.publish {
        Some(DupItem::Text(t)) => assert_eq!(t, "\u{fffd}a"),
        _ => panic!("a chunk must be published as text"),
    }
}

#[test]
fn forwarded_bytes_concatenate_exactly() {
    let chunks = vec![b"hel".to_vec(), b"lo ".to_vec(), Vec::new(), b"world".to_vec()];
    let (log, published) = replay_forward(&chunks);
    assert_eq!(log.bytes_vec().as_slice(), b"hello world".as_slice());
    assert_eq!(published, vec!["hel", "lo ", "", "world"]);
}

#[test]
fn chunk_split_multibyte_char_stays_exact_on_visible_path() {
    // A two-byte character split across chunks: the visible stream gets
    // the exact bytes back; the duplicate path decodes each chunk
    // lossily, so both halves surface as replacement characters.
    let chunks = vec![vec![0xc3], vec![0xa9]];
    let (log, published) = replay_forward(&chunks);
    assert_eq!(log.bytes_vec().as_slice(), "\u{e9}".as_bytes());
    assert_eq!(published, vec!["\u{fffd}", "\u{fffd}"]);
}

#[test]
fn empty_stream_forwards_nothing() {
    let (log, published) = replay_forward(&Vec::new());
    assert!(log.bytes_vec().is_empty());
    assert!(published.is_empty());
}
