//! The tee engine's two producers under one shared writer.
//!
//! In the tee variant the forwarder and the injector write into the same
//! shared writer, serialized by its lock. Their relative order is decided
//! by the scheduler alone; what the lock guarantees is that each
//! acquisition contributes one complete message. This module states that
//! guarantee over an arbitrary schedule: however the two tasks interleave,
//! the messages that reach the visible stream are exactly the chunks and
//! the framed lines, each source in its own order.

use crate::engine::{forward_step, injection_bytes, lossy_utf8, DupItem, ReadEvent, NEWLINE};
use crate::sink::WriteLog;
use vstd::prelude::*;
use vstd::slice::slice_to_vec;
use vstd::string::*;
use vstd::utf8::encode_utf8;

verus! {

/// The payloads the injector hands the shared writer: each line's UTF-8
/// bytes followed by one newline byte.
pub open spec fn line_payloads(lines: Seq<Seq<char>>) -> Seq<Seq<u8>> {
    Seq::new(lines.len(), |i: int| encode_utf8(lines[i]).push(NEWLINE))
}

/// The messages that reach the shared writer under a schedule: at step
/// `pi` the forwarder (`true`) or the injector (`false`) acquires the
/// writer next, handing over its next item whole; a pick for an exhausted
/// source contributes nothing. Each source's own order is preserved.
pub open spec fn merged_messages(
    cs: Seq<Seq<u8>>,
    ls: Seq<Seq<u8>>,
    picks: Seq<bool>,
    pi: int,
    ci: int,
    li: int,
) -> Seq<Seq<u8>>
    decreases picks.len() - pi,
{
    if pi < 0 || pi >= picks.len() {
        Seq::empty()
    } else if picks[pi] {
        if 0 <= ci < cs.len() {
            seq![cs[ci]] + merged_messages(cs, ls, picks, pi + 1, ci + 1, li)
        } else {
            merged_messages(cs, ls, picks, pi + 1, ci, li)
        }
    } else {
        if 0 <= li < ls.len() {
            seq![ls[li]] + merged_messages(cs, ls, picks, pi + 1, ci, li + 1)
        } else {
            merged_messages(cs, ls, picks, pi + 1, ci, li)
        }
    }
}

/// How many chunks the forwarder has handed over once a schedule has run
/// to its end, starting from step `pi` with `ci` chunks already consumed.
pub open spec fn consumed_chunks(n: int, picks: Seq<bool>, pi: int, ci: int) -> int
    decreases picks.len() - pi,
{
    if pi < 0 || pi >= picks.len() {
        ci
    } else if picks[pi] && ci < n {
        consumed_chunks(n, picks, pi + 1, ci + 1)
    } else {
        consumed_chunks(n, picks, pi + 1, ci)
    }
}

/// Law: whatever schedule the runtime picks for the two producers, the
/// shared writer receives exactly the forwarded chunks and the framed
/// injected lines, each one whole and each source in its own order — the
/// interleaving never corrupts a message. The duplicate channel sees the
/// forwarded chunks alone, lossily decoded, in the order the child wrote
/// them. Combined with
/// [`crate::sink::lemma_no_torn_writes`], every chunk and every framed
/// line is a contiguous range of the bytes of the visible stream.
pub fn replay_tee(chunks: &Vec<Vec<u8>>, lines: &Vec<String>, picks: &Vec<bool>) -> (r: (
    WriteLog,
    Vec<String>,
))
    ensures
        r.0.wf(),
        r.0.messages() == merged_messages(
            chunks.deep_view(),
            line_payloads(lines.deep_view()),
            picks@,
            0,
            0,
            0,
        ),
        r.1@.len() == consumed_chunks(chunks@.len() as int, picks@, 0, 0),
        forall|j: int| 0 <= j < r.1@.len() ==> r.1@[j]@ == lossy_utf8(chunks.deep_view()[j]),
{
    let ghost cs = chunks.deep_view();
    let ghost ls = line_payloads(lines.deep_view());
    let mut log = WriteLog::new();
    let mut published: Vec<String> = Vec::new();
    let mut ci: usize = 0;
    let mut li: usize = 0;
    let mut pi: usize = 0;
    proof {
        assert(Seq::<Seq<u8>>::empty() + merged_messages(cs, ls, picks@, 0, 0, 0)
            =~= merged_messages(cs, ls, picks@, 0, 0, 0));
    }
    while pi < picks.len()
        invariant
            log.wf(),
            ci <= chunks@.len(),
            li <= lines@.len(),
            pi <= picks@.len(),
            cs == chunks.deep_view(),
            ls == line_payloads(lines.deep_view()),
            merged_messages(cs, ls, picks@, 0, 0, 0) == log.messages() + merged_messages(
                cs,
                ls,
                picks@,
                pi as int,
                ci as int,
                li as int,
            ),
            published@.len() == ci,
            consumed_chunks(chunks@.len() as int, picks@, 0, 0) == consumed_chunks(
                chunks@.len() as int,
                picks@,
                pi as int,
                ci as int,
            ),
            forall|j: int| 0 <= j < ci ==> published@[j]@ == lossy_utf8(cs[j]),
        decreases picks@.len() - pi,
    {
        let ghost pre = log.messages();
        let ghost rest = merged_messages(cs, ls, picks@, pi as int, ci as int, li as int);
        if picks[pi] {
            if ci < chunks.len() {
                let data = slice_to_vec(chunks[ci].as_slice());
                let ghost dv = data@;
                proof {
                    assert(cs[ci as int] =~= chunks@[ci as int]@);
                    assert(dv == cs[ci as int]);
                }
                let outcome = forward_step(ReadEvent::Chunk(data));
                if let Some(fw) = outcome.forward {
                    log.write_all(&fw);
                } else {
                    proof {
                        assert(false);
                    }
                }
                if let Some(DupItem::Text(text)) = outcome.publish {
                    published.push(text);
                } else {
                    proof {
                        assert(false);
                    }
                }
                proof {
                    assert(rest == seq![cs[ci as int]] + merged_messages(
                        cs,
                        ls,
                        picks@,
                        pi + 1,
                        ci + 1,
                        li as int,
                    ));
                    assert(pre.push(dv) + merged_messages(cs, ls, picks@, pi + 1, ci + 1, li as int)
                        =~= pre + rest);
                }
                ci = ci + 1;
            }
        } else {
            if li < lines.len() {
                let payload = injection_bytes(lines[li].as_str());
                proof {
                    assert(lines.deep_view()[li as int] == lines@[li as int]@);
                    assert(payload@ == ls[li as int]);
                }
                log.write_all(&payload);
                proof {
                    assert(rest == seq![ls[li as int]] + merged_messages(
                        cs,
                        ls,
                        picks@,
                        pi + 1,
                        ci as int,
                        li + 1,
                    ));
                    assert(pre.push(payload@) + merged_messages(
                        cs,
                        ls,
                        picks@,
                        pi + 1,
                        ci as int,
                        li + 1,
                    ) =~= pre + rest);
                }
                li = li + 1;
            }
        }
        pi = pi + 1;
    }
    proof {
        assert(merged_messages(cs, ls, picks@, pi as int, ci as int, li as int)
            =~= Seq::<Seq<u8>>::empty());
        assert(log.messages() + Seq::<Seq<u8>>::empty() =~= log.messages());
    }
    (log, published)
}

} // verus!
