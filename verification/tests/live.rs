use stdout_dup::engine::{forward_step, DupItem, ReadEvent};

// Runs the forwarder loop as the production driver does, over in-memory
// streams: `source` plays the child's original stdout, `visible` the
// swapped-in pipe, and the unbounded channel the duplicate sequence.
async fn forward_all(
    source: tokio::io::DuplexStream,
    mut visible: tokio::io::DuplexStream,
    dup_tx: tokio::sync::mpsc::UnboundedSender<std::io::Result<String>>,
) {
    let mut stream = tokio_util::io::ReaderStream::new(source);
    loop {
        let event = match futures::StreamExt::next(&mut stream).await {
            Some(Ok(data)) => ReadEvent::Chunk(data.to_vec()),
            Some(Err(err)) => ReadEvent::Failed(err),
            None => ReadEvent::Closed,
        };
        let outcome = forward_step(event);
        if let Some(bytes) = outcome.forward {
            let _ = tokio::io::AsyncWriteExt::write_all(&mut visible, &bytes).await;
        }
        if let Some(item) = outcome.publish {
            let _ = dup_tx.send(match item {
                DupItem::Text(t) => Ok(t),
                DupItem::Failed(e) => Err(e),
            });
        }
        if outcome.stop {
            break;
        }
    }
}

#[test]
fn appended_lines_eventually_reach_the_visible_stream() {
    let rt = tokio::runtime::Builder::new_current_thread().enable_all().build().unwrap();
    rt.block_on(async {
        let (visible_write, mut visible_read) = tokio::io::duplex(1024);
        let (inj_tx, mut inj_rx) = tokio::sync::mpsc::unbounded_channel::<String>();
        let appender = stdout_dup::appender::StdoutAppender::from_sender(inj_tx);

        // The injector task, as the production driver runs it: frame each
        // queued line through the library and write it whole.
        let injector = tokio::spawn(async move {
            let mut visible = visible_write;
            while let Some(line) = inj_rx.recv().await {
                let data = stdout_dup::engine::injection_bytes(&line);
                let _ = tokio::io::AsyncWriteExt::write_all(&mut visible, &data).await;
            }
        });

        appender.append_line(String::from("note: retrying"));
        appender.append_line(String::from("done"));
        drop(appender);
        injector.await.unwrap();

        let mut seen = Vec::new();
        tokio::io::AsyncReadExt::read_to_end(&mut visible_read, &mut seen).await.unwrap();
        assert_eq!(seen, b"note: retrying\ndone\n".to_vec());
    });
}

#[test]
fn dropping_the_consumer_does_not_stop_forwarding() {
    let rt = tokio::runtime::Builder::new_current_thread().enable_all().build().unwrap();
    rt.block_on(async {
        let (mut child_write, original) = tokio::io::duplex(1024);
        let (visible_write, mut visible_read) = tokio::io::duplex(1024);
        let (dup_tx, mut dup_rx) = tokio::sync::mpsc::unbounded_channel();
        let forwarder = tokio::spawn(forward_all(original, visible_write, dup_tx));

        tokio::io::AsyncWriteExt::write_all(&mut child_write, b"build ok\n").await.unwrap();
        match dup_rx.recv().await {
            Some(Ok(text)) => assert_eq!(text, "build ok\n"),
            _ => panic!("the duplicate sequence must yield the decoded chunk"),
        }

        // The consumer goes away; the visible stream must keep receiving.
        drop(dup_rx);
        tokio::io::AsyncWriteExt::write_all(&mut child_write, b"after drop").await.unwrap();
        drop(child_write);
        forwarder.await.unwrap();

        let mut seen = Vec::new();
        tokio::io::AsyncReadExt::read_to_end(&mut visible_read, &mut seen).await.unwrap();
        assert_eq!(seen, b"build ok\nafter drop".to_vec());
    });
}
