//! The APDUs that carry an instruction from the host: one per chunk of at
//! most `MAX_APDU_DATA_LEN` bytes, the last marked `P2_DONE`, the others
//! `P2_MORE`.

use vstd::prelude::*;

use crate::messages::{APDU_CLASS, MAX_APDU_DATA_LEN, P2_DONE, P2_MORE};
use crate::transport::{
    chunk_header, feed_more, flatten, idle, lemma_chunks_reassemble, spec_receive, ReceiveView,
    MAX_BUFFER_LEN,
};
use crate::status::StatusWord;

verus! {

/// An APDU of the application, without the class byte (the same for all)
/// and with parameter 2 given by whether it is the last chunk.
pub struct Apdu<'a> {
    instruction_byte: u8,
    param1_byte: u8,
    command_data: &'a [u8],
    is_last_chunk: bool,
}

/// What an APDU carries.
pub struct ApduView {
    pub ins: u8,
    pub p1: u8,
    pub data: Seq<u8>,
    pub is_last: bool,
}

impl<'a> Apdu<'a> {
    /// The data of an APDU fits in its length byte.
    #[verifier::type_invariant]
    closed spec fn data_fits(self) -> bool {
        self.command_data@.len() <= MAX_APDU_DATA_LEN
    }

    /// What the APDU carries.
    pub closed spec fn view(&self) -> ApduView {
        ApduView {
            ins: self.instruction_byte,
            p1: self.param1_byte,
            data: self.command_data@,
            is_last: self.is_last_chunk,
        }
    }

    /// A single, last APDU with the data; none when the data is too long.
    pub fn new_with_data(instruction_byte: u8, param1_byte: u8, command_data: &'a [u8]) -> (r:
        Option<Apdu<'a>>)
        ensures
            r is Some <==> command_data@.len() <= MAX_APDU_DATA_LEN,
            r matches Some(a) ==> a.view() == (ApduView {
                ins: instruction_byte,
                p1: param1_byte,
                data: command_data@,
                is_last: true,
            }),
    {
        if command_data.len() <= MAX_APDU_DATA_LEN {
            Some(Apdu { instruction_byte, param1_byte, command_data, is_last_chunk: true })
        } else {
            None
        }
    }

    /// The APDUs of an instruction: its data in chunks of `MAX_APDU_DATA_LEN`
    /// bytes (the last one shorter), and one APDU without data for no data.
    pub fn new_chunks(instruction_byte: u8, param1_byte: u8, data: &'a [u8]) -> (r: Vec<Apdu<'a>>)
        ensures
            r@.len() == spec_chunk_count(data@.len()),
            forall|i: int|
                0 <= i < r@.len() ==> (#[trigger] r@[i]).view() == (ApduView {
                    ins: instruction_byte,
                    p1: param1_byte,
                    data: spec_chunk(data@, i),
                    is_last: i == r@.len() - 1,
                }),
    {
        let len = data.len();
        let count: usize = if len == 0 {
            1
        } else {
            len / MAX_APDU_DATA_LEN + if len % MAX_APDU_DATA_LEN == 0 {
                0
            } else {
                1
            }
        };
        proof {
            lemma_chunk_count(len as nat);
        }
        let mut out: Vec<Apdu<'a>> = Vec::new();
        let mut i: usize = 0;
        let mut start: usize = 0;
        while i < count
            invariant
                count == spec_chunk_count(len as nat),
                len == data@.len(),
                i <= count,
                start == i * MAX_APDU_DATA_LEN,
                start <= len || i == count,
                count > 0,
                (count - 1) * MAX_APDU_DATA_LEN < len || len == 0 && count == 1,
                out@.len() == i,
                forall|j: int|
                    0 <= j < i ==> (#[trigger] out@[j]).view() == (ApduView {
                        ins: instruction_byte,
                        p1: param1_byte,
                        data: spec_chunk(data@, j),
                        is_last: j == count - 1,
                    }),
            decreases count - i,
        {
            proof {
                if i + 1 < count {
                    assert((i + 1) * MAX_APDU_DATA_LEN <= (count - 1) * MAX_APDU_DATA_LEN)
                        by (nonlinear_arith)
                        requires
                            i + 1 <= count - 1,
                    ;
                }
            }
            let end = if len - start < MAX_APDU_DATA_LEN {
                len
            } else {
                start + MAX_APDU_DATA_LEN
            };
            let chunk = slice_range(data, start, end);
            let apdu = Apdu {
                instruction_byte,
                param1_byte,
                command_data: chunk,
                is_last_chunk: i == count - 1,
            };
            out.push(apdu);
            i += 1;
            start = if end == len && i == count {
                start + MAX_APDU_DATA_LEN
            } else {
                end
            };
            proof {
                assert(start == i * MAX_APDU_DATA_LEN) by (nonlinear_arith)
                    requires
                        start == (i - 1) * MAX_APDU_DATA_LEN + MAX_APDU_DATA_LEN,
                ;
            }
        }
        out
    }

    /// Whether this is the last chunk of its instruction.
    pub fn is_last(&self) -> (r: bool)
        ensures
            r == self.view().is_last,
    {
        self.is_last_chunk
    }

    /// The number of bytes `write_bytes` writes: four header bytes, the
    /// length byte and the data.
    pub fn bytes_count(&self) -> (r: usize)
        ensures
            r == 5 + self.view().data.len(),
    {
        proof {
            use_type_invariant(self);
        }
        5 + self.command_data.len()
    }

    /// Appends the bytes of the APDU: class, instruction, parameter 1,
    /// parameter 2, data length and data.
    pub fn write_bytes(&self, collection: &mut Vec<u8>)
        ensures
            final(collection)@ == old(collection)@ + spec_apdu_bytes(self.view()),
    {
        proof {
            use_type_invariant(self);
        }
        let param2_byte = if self.is_last_chunk {
            P2_DONE
        } else {
            P2_MORE
        };
        collection.push(APDU_CLASS);
        collection.push(self.instruction_byte);
        collection.push(self.param1_byte);
        collection.push(param2_byte);
        collection.push(self.command_data.len() as u8);
        crate::primitives::push_bytes(collection, self.command_data);
        proof {
            assert(final(collection)@ =~= old(collection)@ + spec_apdu_bytes(self.view()));
        }
    }
}

/// The part of a slice between two positions.
fn slice_range<'a>(data: &'a [u8], start: usize, end: usize) -> (r: &'a [u8])
    requires
        start <= end <= data@.len(),
    ensures
        r@ == data@.subrange(start as int, end as int),
{
    let (head, _) = data.split_at(end);
    let (_, tail) = head.split_at(start);
    tail
}

/// The bytes of an APDU.
pub open spec fn spec_apdu_bytes(a: ApduView) -> Seq<u8> {
    seq![
        APDU_CLASS,
        a.ins,
        a.p1,
        if a.is_last {
            P2_DONE
        } else {
            P2_MORE
        },
        a.data.len() as u8,
    ] + a.data
}

/// The number of chunks of data of a length: at least one.
pub open spec fn spec_chunk_count(len: nat) -> nat {
    if len == 0 {
        1
    } else {
        ((len + 254) / 255) as nat
    }
}

/// The chunk `i` of data.
pub open spec fn spec_chunk(data: Seq<u8>, i: int) -> Seq<u8> {
    let start = i * MAX_APDU_DATA_LEN;
    let end = if (i + 1) * MAX_APDU_DATA_LEN <= data.len() {
        (i + 1) * MAX_APDU_DATA_LEN
    } else {
        data.len() as int
    };
    data.subrange(start, end)
}

/// The chunk count as the code computes it, and where the last chunk starts.
proof fn lemma_chunk_count(len: nat)
    ensures
        spec_chunk_count(len) == (if len == 0 {
            1
        } else {
            len / 255 + (if len % 255 == 0 {
                0nat
            } else {
                1nat
            })
        }),
        spec_chunk_count(len) > 0,
        len > 0 ==> (spec_chunk_count(len) - 1) * 255 < len,
        len > 0 ==> len <= spec_chunk_count(len) * 255,
{
    if len > 0 {
        assert(((len + 254) / 255) == len / 255 + (if len % 255 == 0 {
            0nat
        } else {
            1nat
        })) by (nonlinear_arith);
        let c = spec_chunk_count(len);
        assert((c - 1) * 255 < len && len <= c * 255) by (nonlinear_arith)
            requires
                c == len / 255 + (if len % 255 == 0 {
                    0nat
                } else {
                    1nat
                }),
                len > 0,
        ;
    }
}

/// The chunks before `k`, one after another, are the data up to chunk `k`.
proof fn lemma_flatten_chunks(data: Seq<u8>, k: nat)
    requires
        k <= spec_chunk_count(data.len()),
    ensures
        flatten(Seq::new(k, |i: int| spec_chunk(data, i))) == data.subrange(
            0,
            if k * 255 <= data.len() {
                (k * 255) as int
            } else {
                data.len() as int
            },
        ),
    decreases k,
{
    lemma_chunk_count(data.len());
    if k == 0 {
        assert(flatten(Seq::new(0, |i: int| spec_chunk(data, i))) =~= Seq::<u8>::empty());
        assert(data.subrange(0, 0) =~= Seq::<u8>::empty());
    } else {
        let s = Seq::new(k, |i: int| spec_chunk(data, i));
        lemma_flatten_chunks(data, (k - 1) as nat);
        assert(s.drop_last() =~= Seq::new((k - 1) as nat, |i: int| spec_chunk(data, i)));
        assert((k - 1) * 255 <= data.len()) by (nonlinear_arith)
            requires
                k <= spec_chunk_count(data.len()),
                data.len() > 0 ==> (spec_chunk_count(data.len()) - 1) * 255 < data.len(),
                data.len() == 0 ==> spec_chunk_count(data.len()) == 1,
        ;
        assert(k * 255 == (k - 1) * 255 + 255) by (nonlinear_arith);
        assert(flatten(s) =~= data.subrange(
            0,
            if k * 255 <= data.len() {
                (k * 255) as int
            } else {
                data.len() as int
            },
        ));
    }
}

/// An instruction that fits in the device's buffer, sent as the APDUs that
/// `new_chunks` makes, arrives whole: every chunk but the last is kept, and
/// the last one completes the instruction with all of its data.
pub proof fn lemma_chunked_instruction_arrives_whole(ins: u8, p1: u8, data: Seq<u8>)
    requires
        data.len() <= MAX_BUFFER_LEN,
    ensures
        ({
            let n = spec_chunk_count(data.len());
            spec_receive(
                feed_more(idle(), ins, p1, Seq::new((n - 1) as nat, |i: int| spec_chunk(data, i))),
                chunk_header(ins, p1, P2_DONE),
                Ok(spec_chunk(data, n - 1)),
            ) == (idle(), Ok::<ReceiveView, StatusWord>(ReceiveView::Instruction(ins, p1, data)))
        }),
{
    let n = spec_chunk_count(data.len());
    lemma_chunk_count(data.len());
    let init = Seq::new((n - 1) as nat, |i: int| spec_chunk(data, i));
    lemma_flatten_chunks(data, (n - 1) as nat);
    lemma_flatten_chunks(data, n);
    let all = Seq::new(n, |i: int| spec_chunk(data, i));
    assert(all.drop_last() =~= init);
    assert(n * 255 >= data.len()) by (nonlinear_arith)
        requires
            data.len() > 0 ==> data.len() <= n * 255,
            n >= 1,
    ;
    assert(data.subrange(0, data.len() as int) =~= data);
    assert(flatten(init) + spec_chunk(data, n - 1) == data);
    lemma_chunks_reassemble(ins, p1, init, spec_chunk(data, n - 1));
}

} // verus!
