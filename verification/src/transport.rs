//! Reassembly of instructions that the host sends in several APDU chunks.
//!
//! A chunk with parameter 2 `P2_MORE` is kept and more are expected; the
//! chunk with `P2_DONE` completes the instruction. All chunks of an
//! instruction must carry the same instruction byte and parameter 1, and the
//! whole instruction must fit in `MAX_BUFFER_LEN` bytes. Any error drops what
//! was collected.

use vstd::prelude::*;

use crate::messages::{P2_DONE, P2_MORE};
use crate::primitives::push_bytes;
use crate::status::StatusWord;

verus! {

/// The largest instruction, in bytes: sixteen full APDUs.
pub const MAX_BUFFER_LEN: usize = 4080;

/// The header bytes of an APDU (the class byte is checked by the device).
#[derive(Clone, Copy, Debug, PartialEq, Eq)]
pub struct ApduHeader {
    pub ins: u8,
    pub p1: u8,
    pub p2: u8,
}

/// A complete instruction: its code, parameter 1 and all its data.
#[derive(Clone, Debug)]
pub struct RawInstruction {
    pub ins: u8,
    pub p1: u8,
    pub data: Vec<u8>,
}

/// What receiving a chunk gives.
#[derive(Clone, Debug)]
pub enum ReceiveInstructionResult {
    ExpectingNextChunk,
    Instruction(RawInstruction),
}

/// What receiving a chunk gives, as values.
pub enum ReceiveView {
    ExpectingNextChunk,
    Instruction(u8, u8, Seq<u8>),
}

/// The state of reassembly: the data collected so far, and the instruction
/// and parameter 1 that it belongs to (none between instructions).
pub struct TransportView {
    pub buffer: Seq<u8>,
    pub current: Option<(u8, u8)>,
}

/// No instruction under way.
pub open spec fn idle() -> TransportView {
    TransportView { buffer: Seq::empty(), current: None }
}

/// The view of what receiving a chunk gave.
pub open spec fn receive_view(r: ReceiveInstructionResult) -> ReceiveView {
    match r {
        ReceiveInstructionResult::ExpectingNextChunk => ReceiveView::ExpectingNextChunk,
        ReceiveInstructionResult::Instruction(raw) => ReceiveView::Instruction(
            raw.ins,
            raw.p1,
            raw.data@,
        ),
    }
}

/// The state after a chunk with the given header and data (or data error),
/// and what the chunk gives.
pub open spec fn spec_receive(
    s: TransportView,
    header: ApduHeader,
    data: Result<Seq<u8>, StatusWord>,
) -> (TransportView, Result<ReceiveView, StatusWord>) {
    match data {
        Err(e) => (idle(), Err(e)),
        Ok(d) => {
            if s.current matches Some((ins, p1)) && header.ins != ins {
                (idle(), Err(StatusWord::WrongInstruction))
            } else if s.current matches Some((ins, p1)) && header.p1 != p1 {
                (idle(), Err(StatusWord::WrongP1P2))
            } else if s.buffer.len() + d.len() > MAX_BUFFER_LEN {
                (idle(), Err(StatusWord::MaxBufferLenExceeded))
            } else if header.p2 == P2_MORE {
                (
                    TransportView {
                        buffer: s.buffer + d,
                        current: Some((header.ins, header.p1)),
                    },
                    Ok(ReceiveView::ExpectingNextChunk),
                )
            } else if header.p2 == P2_DONE {
                (idle(), Ok(ReceiveView::Instruction(header.ins, header.p1, s.buffer + d)))
            } else {
                (idle(), Err(StatusWord::WrongP1P2))
            }
        },
    }
}

/// Collects the chunks of an instruction.
pub struct ApduTransport {
    buffer: Vec<u8>,
    current_ins: Option<u8>,
    current_p1: Option<u8>,
}

impl ApduTransport {
    /// The state of reassembly.
    pub closed spec fn view(&self) -> TransportView {
        TransportView {
            buffer: self.buffer@,
            current: match (self.current_ins, self.current_p1) {
                (Some(ins), Some(p1)) => Some((ins, p1)),
                _ => None,
            },
        }
    }

    /// The instruction and its parameter are known together; nothing is
    /// collected between instructions; never more than `MAX_BUFFER_LEN`.
    pub closed spec fn wf(&self) -> bool {
        &&& self.current_ins is Some == self.current_p1 is Some
        &&& self.current_ins is None ==> self.buffer@.len() == 0
        &&& self.buffer@.len() <= MAX_BUFFER_LEN
    }

    /// A transport with no instruction under way.
    pub fn new() -> (t: ApduTransport)
        ensures
            t.wf(),
            t@ == idle(),
    {
        let t = ApduTransport { buffer: Vec::new(), current_ins: None, current_p1: None };
        assert(t@.buffer =~= Seq::<u8>::empty());
        t
    }

    /// Drops what was collected.
    pub fn reset(&mut self)
        ensures
            final(self).wf(),
            final(self)@ == idle(),
    {
        self.buffer.clear();
        self.current_ins = None;
        self.current_p1 = None;
        assert(self@.buffer =~= Seq::<u8>::empty());
    }

    /// Takes one chunk: its header and its data (or the error of reading it).
    pub fn receive(&mut self, header: ApduHeader, data: Result<&[u8], StatusWord>) -> (r: Result<
        ReceiveInstructionResult,
        StatusWord,
    >)
        requires
            old(self).wf(),
        ensures
            final(self).wf(),
            (final(self)@, match r {
                Ok(v) => Ok(receive_view(v)),
                Err(e) => Err(e),
            }) == spec_receive(
                old(self)@,
                header,
                match data {
                    Ok(d) => Ok(d@),
                    Err(e) => Err(e),
                },
            ),
    {
        let data = match data {
            Ok(d) => d,
            Err(e) => {
                self.reset();
                return Err(e);
            },
        };
        match (self.current_ins, self.current_p1) {
            (Some(curr_ins), Some(curr_p1)) => {
                if header.ins != curr_ins {
                    self.reset();
                    return Err(StatusWord::WrongInstruction);
                }
                if header.p1 != curr_p1 {
                    self.reset();
                    return Err(StatusWord::WrongP1P2);
                }
            },
            _ => {
                self.current_ins = Some(header.ins);
                self.current_p1 = Some(header.p1);
            },
        }
        if data.len() > MAX_BUFFER_LEN - self.buffer.len() {
            self.reset();
            return Err(StatusWord::MaxBufferLenExceeded);
        }
        push_bytes(&mut self.buffer, data);
        if header.p2 == P2_MORE {
            Ok(ReceiveInstructionResult::ExpectingNextChunk)
        } else if header.p2 == P2_DONE {
            let mut collected: Vec<u8> = Vec::new();
            core::mem::swap(&mut collected, &mut self.buffer);
            let raw = RawInstruction { ins: header.ins, p1: header.p1, data: collected };
            self.reset();
            Ok(ReceiveInstructionResult::Instruction(raw))
        } else {
            self.reset();
            Err(StatusWord::WrongP1P2)
        }
    }
}

/// The header of a chunk of an instruction.
pub open spec fn chunk_header(ins: u8, p1: u8, p2: u8) -> ApduHeader {
    ApduHeader { ins, p1, p2 }
}

/// All chunks, one after another.
pub open spec fn flatten(chunks: Seq<Seq<u8>>) -> Seq<u8>
    decreases chunks.len(),
{
    if chunks.len() == 0 {
        Seq::empty()
    } else {
        flatten(chunks.drop_last()) + chunks.last()
    }
}

/// The state after chunks with `P2_MORE`, one after another.
pub open spec fn feed_more(s: TransportView, ins: u8, p1: u8, chunks: Seq<Seq<u8>>) -> TransportView
    decreases chunks.len(),
{
    if chunks.len() == 0 {
        s
    } else {
        spec_receive(
            feed_more(s, ins, p1, chunks.drop_last()),
            chunk_header(ins, p1, P2_MORE),
            Ok(chunks.last()),
        ).0
    }
}

/// Chunks with `P2_MORE` of one instruction, each within the limit, are all
/// kept, in order.
pub proof fn lemma_feed_more(ins: u8, p1: u8, chunks: Seq<Seq<u8>>)
    requires
        flatten(chunks).len() <= MAX_BUFFER_LEN,
    ensures
        feed_more(idle(), ins, p1, chunks).buffer == flatten(chunks),
        chunks.len() > 0 ==> feed_more(idle(), ins, p1, chunks).current == Some((ins, p1)),
        chunks.len() == 0 ==> feed_more(idle(), ins, p1, chunks) == idle(),
        forall|i: int|
            0 <= i < chunks.len() ==> (#[trigger] spec_receive(
                feed_more(idle(), ins, p1, chunks.take(i)),
                chunk_header(ins, p1, P2_MORE),
                Ok(chunks[i]),
            )).1 == Ok::<ReceiveView, StatusWord>(ReceiveView::ExpectingNextChunk),
    decreases chunks.len(),
{
    if chunks.len() > 0 {
        let init = chunks.drop_last();
        assert(flatten(chunks) == flatten(init) + chunks.last());
        lemma_feed_more(ins, p1, init);
        assert forall|i: int| 0 <= i < chunks.len() implies (#[trigger] spec_receive(
            feed_more(idle(), ins, p1, chunks.take(i)),
            chunk_header(ins, p1, P2_MORE),
            Ok(chunks[i]),
        )).1 == Ok::<ReceiveView, StatusWord>(ReceiveView::ExpectingNextChunk) by {
            if i < init.len() {
                assert(chunks.take(i) =~= init.take(i));
                assert(chunks[i] == init[i]);
            } else {
                assert(chunks.take(i) =~= init);
            }
        }
    } else {
        assert(flatten(chunks) =~= Seq::<u8>::empty());
    }
}

/// An instruction sent as chunks with `P2_MORE` and a last chunk with
/// `P2_DONE`, all with the same instruction byte and parameter 1, and within
/// the limit in all, is received whole: its data is all chunks one after
/// another, and nothing stays collected.
pub proof fn lemma_chunks_reassemble(ins: u8, p1: u8, chunks: Seq<Seq<u8>>, last: Seq<u8>)
    requires
        flatten(chunks).len() + last.len() <= MAX_BUFFER_LEN,
    ensures
        spec_receive(feed_more(idle(), ins, p1, chunks), chunk_header(ins, p1, P2_DONE), Ok(last))
            == (idle(), Ok::<ReceiveView, StatusWord>(
            ReceiveView::Instruction(ins, p1, flatten(chunks) + last),
        )),
{
    lemma_feed_more(ins, p1, chunks);
}

/// Every error leaves no instruction under way.
pub proof fn lemma_error_resets(
    s: TransportView,
    header: ApduHeader,
    data: Result<Seq<u8>, StatusWord>,
)
    ensures
        spec_receive(s, header, data).1 is Err ==> spec_receive(s, header, data).0 == idle(),
{
}

} // verus!
