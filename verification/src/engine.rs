//! Decision logic of the duplication engine.
//!
//! A single forwarder reads the child's original stream and, for each
//! event, decides what reaches the visible stream (through the shared
//! writer) and what is published on the duplicate channel. The
//! asynchronous loop that produces the events and performs the writes
//! lives outside the verified core; every decision it takes comes from
//! [`forward_step`].

use crate::sink::WriteLog;
use vstd::prelude::*;
use vstd::slice::slice_to_vec;
use vstd::string::*;
use vstd::utf8::{decode_utf8, decode_utf8_split, is_char_boundary,
    is_char_boundary_iff_is_leading_byte, is_char_boundary_iff_not_is_continuation_byte,
    is_continuation_byte, valid_utf8, valid_utf8_concat};

verus! {

/// One event observed by the forwarder on the child's original stream.
pub enum ReadEvent {
    /// A chunk of bytes was read.
    Chunk(Vec<u8>),
    /// The read failed; carries the I/O error.
    Failed(std::io::Error),
    /// The stream ended.
    Closed,
}

/// One item of the duplicate sequence: a decoded text chunk, or the read
/// error that ended the forwarder.
pub enum DupItem {
    Text(String),
    Failed(std::io::Error),
}

/// What the forwarder does in reaction to one read event.
pub struct ForwardOutcome {
    /// Bytes to write, whole, into the shared writer; `None` when nothing
    /// is forwarded.
    pub forward: Option<Vec<u8>>,
    /// Item to publish on the duplicate channel, if any.
    pub publish: Option<DupItem>,
    /// True when the forwarder reads no further chunk.
    pub stop: bool,
}

/// What `String::from_utf8_lossy` makes of a byte sequence. The decoding
/// depends on the bytes alone.
pub uninterp spec fn lossy_utf8(bytes: Seq<u8>) -> Seq<char>;

/// Relies on `String::from_utf8_lossy`: the result is a function of the
/// bytes alone, and bytes that are valid UTF-8 decode to exactly their
/// characters.
#[verifier::external_body]
fn lossy_decode(bytes: &Vec<u8>) -> (r: String)
    ensures
        r@ == lossy_utf8(bytes@),
        valid_utf8(bytes@) ==> r@ == decode_utf8(bytes@),
{
    String::from_utf8_lossy(bytes).into_owned()
}

/// The forwarder's reaction to one read event.
///
/// A chunk is forwarded unchanged to the visible stream and published,
/// lossily decoded, on the duplicate channel; a read error is published
/// as the terminal item and stops the forwarder; end of stream stops it
/// silently. Write failures into the visible stream are swallowed by the
/// caller, so the outcome never depends on them.
pub fn forward_step(event: ReadEvent) -> (r: ForwardOutcome)
    ensures
        match event {
            ReadEvent::Chunk(data) => {
                &&& r.forward matches Some(fw) && fw@ == data@
                &&& r.publish matches Some(DupItem::Text(t)) && t@ == lossy_utf8(data@) && (
                valid_utf8(data@) ==> t@ == decode_utf8(data@))
                &&& !r.stop
            },
            ReadEvent::Failed(e) => {
                &&& r.forward is None
                &&& r.publish matches Some(DupItem::Failed(e2)) && e2 == e
                &&& r.stop
            },
            ReadEvent::Closed => {
                &&& r.forward is None
                &&& r.publish is None
                &&& r.stop
            },
        },
{
    match event {
        ReadEvent::Chunk(data) => {
            let text = lossy_decode(&data);
            ForwardOutcome {
                forward: Some(data),
                publish: Some(DupItem::Text(text)),
                stop: false,
            }
        },
        ReadEvent::Failed(e) => ForwardOutcome {
            forward: None,
            publish: Some(DupItem::Failed(e)),
            stop: true,
        },
        ReadEvent::Closed => ForwardOutcome { forward: None, publish: None, stop: true },
    }
}

/// The line terminator appended to every injected line.
pub const NEWLINE: u8 = 10;

/// Frames one injected line for the visible stream: the line's UTF-8
/// bytes followed by exactly one newline byte.
pub fn injection_bytes(line: &str) -> (r: Vec<u8>)
    ensures
        r@ == line.spec_bytes().push(NEWLINE),
{
    let mut data = line.as_bytes_vec();
    data.push(NEWLINE);
    data
}

/// Law: over any sequence of chunks read from the original stream, the
/// forwarder hands the visible stream exactly those chunks, whole and in
/// order — so the bytes that reach it are the concatenation of everything
/// the child wrote — and publishes one duplicate item per chunk, the
/// lossy decoding of that chunk.
pub fn replay_forward(chunks: &Vec<Vec<u8>>) -> (r: (WriteLog, Vec<String>))
    ensures
        r.0.wf(),
        r.0.messages() == chunks.deep_view(),
        r.0.bytes() == chunks.deep_view().flatten(),
        r.1@.len() == chunks@.len(),
        forall|i: int| 0 <= i < chunks@.len() ==> r.1@[i]@ == lossy_utf8(chunks.deep_view()[i]),
        forall|i: int|
            0 <= i < chunks@.len() && valid_utf8(#[trigger] chunks.deep_view()[i]) ==> r.1@[i]@
                == decode_utf8(chunks.deep_view()[i]),
{
    let mut log = WriteLog::new();
    let mut published: Vec<String> = Vec::new();
    let n = chunks.len();
    let mut i: usize = 0;
    proof {
        assert(log.messages() =~= chunks.deep_view().take(0));
    }
    while i < n
        invariant
            n == chunks@.len(),
            i <= n,
            log.wf(),
            log.messages() == chunks.deep_view().take(i as int),
            published@.len() == i,
            forall|j: int| 0 <= j < i ==> published@[j]@ == lossy_utf8(chunks.deep_view()[j]),
            forall|j: int|
                0 <= j < i && valid_utf8(#[trigger] chunks.deep_view()[j]) ==> published@[j]@
                    == decode_utf8(chunks.deep_view()[j]),
        decreases n - i,
    {
        let data = slice_to_vec(chunks[i].as_slice());
        let ghost dv = data@;
        proof {
            assert(chunks.deep_view()[i as int] =~= chunks@[i as int]@);
            assert(dv == chunks.deep_view()[i as int]);
        }
        let outcome = forward_step(ReadEvent::Chunk(data));
        if let Some(fw) = outcome.forward {
            log.write_all(&fw);
        } else {
            proof {
                assert(false);
            }
        }
        if let Some(DupItem::Text(t)) = outcome.publish {
            published.push(t);
        } else {
            proof {
                assert(false);
            }
        }
        proof {
            assert(chunks.deep_view().take(i as int).push(dv)
                =~= chunks.deep_view().take(i + 1));
        }
        i = i + 1;
    }
    proof {
        assert(chunks.deep_view().take(n as int) =~= chunks.deep_view());
    }
    (log, published)
}

/// Decoding distributes over the concatenation of two valid UTF-8 byte
/// sequences: the second one starts on a character boundary.
proof fn lemma_decode_concat_pair(a: Seq<u8>, b: Seq<u8>)
    requires
        valid_utf8(a),
        valid_utf8(b),
    ensures
        valid_utf8(a + b),
        decode_utf8(a + b) == decode_utf8(a) + decode_utf8(b),
{
    valid_utf8_concat(a, b);
    if a.len() == 0 {
        assert(a + b =~= b);
        assert(decode_utf8(a) + decode_utf8(b) =~= decode_utf8(b));
    } else if b.len() == 0 {
        assert(a + b =~= a);
        assert(decode_utf8(a) + decode_utf8(b) =~= decode_utf8(a));
    } else {
        let n = a.len() as int;
        assert(is_char_boundary(b, 0));
        is_char_boundary_iff_is_leading_byte(b, 0);
        assert(!is_continuation_byte(b[0]));
        is_char_boundary_iff_not_is_continuation_byte(a + b, n);
        assert((a + b)[n] == b[0]);
        assert(is_char_boundary(a + b, n));
        decode_utf8_split(a + b, n);
        assert((a + b).subrange(0, n) =~= a);
        assert((a + b).subrange(n, (a + b).len() as int) =~= b);
    }
}

/// Law: on output whose chunks are valid UTF-8, the duplicate sequence
/// loses nothing. When each published text item decodes its chunk — as
/// [`forward_step`] guarantees for valid chunks — the concatenation of
/// the text items is exactly the decoding of the concatenated bytes,
/// however the output was split into chunks.
pub proof fn lemma_duplicate_concatenation(chunks: Seq<Seq<u8>>, texts: Seq<Seq<char>>)
    requires
        chunks.len() == texts.len(),
        forall|i: int| 0 <= i < chunks.len() ==> valid_utf8(#[trigger] chunks[i]),
        forall|i: int| 0 <= i < chunks.len() ==> #[trigger] texts[i] == decode_utf8(chunks[i]),
    ensures
        valid_utf8(chunks.flatten()),
        texts.flatten() == decode_utf8(chunks.flatten()),
    decreases chunks.len(),
{
    if chunks.len() == 0 {
        assert(chunks.flatten() =~= Seq::<u8>::empty());
        assert(texts.flatten() =~= Seq::<char>::empty());
        assert(decode_utf8(Seq::<u8>::empty()) =~= Seq::<char>::empty());
    } else {
        let cr = chunks.drop_first();
        let tr = texts.drop_first();
        assert forall|i: int| 0 <= i < cr.len() implies valid_utf8(#[trigger] cr[i]) by {
            assert(cr[i] == chunks[i + 1]);
        }
        assert forall|i: int| 0 <= i < cr.len() implies #[trigger] tr[i] == decode_utf8(cr[i]) by {
            assert(cr[i] == chunks[i + 1]);
            assert(tr[i] == texts[i + 1]);
        }
        lemma_duplicate_concatenation(cr, tr);
        lemma_decode_concat_pair(chunks.first(), cr.flatten());
        assert(chunks.flatten() == chunks.first() + cr.flatten());
        assert(texts.flatten() == texts.first() + tr.flatten());
        assert(texts.first() == decode_utf8(chunks.first()));
    }
}

} // verus!
