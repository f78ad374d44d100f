//! Read FIFO Queue (function 0x18): request layout and response decoding.

use vstd::prelude::*;

use crate::words::{be_hi, be_lo, be_word, WordCodec};

verus! {

/// Function code of the Read FIFO Queue operation.
pub const READ_FIFO_QUEUE: u8 = 0x18;

/// Request payload: the pointer address as a big-endian byte pair. The device
/// answers with its own length header, so no length byte is sent.
pub open spec fn fifo_request(pointer_address: u16) -> Seq<u8> {
    seq![be_hi(pointer_address), be_lo(pointer_address)]
}

/// How many whole words follow the four header bytes of a `len`-byte
/// response. A response without a complete header holds no words, and a lone
/// trailing byte belongs to no word.
pub open spec fn fifo_word_count(len: nat) -> nat {
    if len >= 4 {
        ((len - 4) / 2) as nat
    } else {
        0
    }
}

/// The queue contents a response denotes: big-endian pairs from offset 4 to
/// the end of the buffer. The four header bytes — byte count and item count —
/// are not validated; the words actually present are returned.
pub open spec fn fifo_words(bytes: Seq<u8>) -> Seq<u16> {
    Seq::new(fifo_word_count(bytes.len()), |i: int| be_word(bytes[4 + 2 * i], bytes[5 + 2 * i]))
}

/// Big-endian byte image of a word sequence: each word contributes its high
/// byte, then its low byte.
pub open spec fn be_words_bytes(words: Seq<u16>) -> Seq<u8> {
    Seq::new(
        2 * words.len(),
        |i: int|
            if i % 2 == 0 {
                be_hi(words[i / 2])
            } else {
                be_lo(words[i / 2])
            },
    )
}

/// Builds Read FIFO Queue requests and decodes their responses. The read is
/// non-destructive: the device reports queue contents without dequeuing.
pub struct FifoQueueCodec;

impl FifoQueueCodec {
    /// Encode a Read FIFO Queue request.
    pub fn build_request(pointer_address: u16) -> (r: Vec<u8>)
        ensures
            r@ == fifo_request(pointer_address),
    {
        let (hi, lo) = WordCodec::encode_be(pointer_address);
        let mut r: Vec<u8> = Vec::new();
        r.push(hi);
        r.push(lo);
        proof {
            assert(r@ =~= fifo_request(pointer_address));
        }
        r
    }

    /// Decode a Read FIFO Queue response payload into the queue's words.
    pub fn parse_response(payload: &[u8]) -> (r: Vec<u16>)
        ensures
            r@ == fifo_words(payload@),
    {
        let mut words: Vec<u16> = Vec::new();
        if payload.len() < 4 {
            proof {
                assert(words@ =~= fifo_words(payload@));
            }
            return words;
        }
        let mut i: usize = 4;
        while i < payload.len() - 1
            invariant
                4 <= payload@.len(),
                4 <= i,
                i % 2 == 0,
                i <= payload@.len(),
                words@.len() == (i - 4) / 2,
                forall|j: int|
                    0 <= j < words@.len() ==> words@[j] == be_word(
                        payload@[4 + 2 * j],
                        payload@[5 + 2 * j],
                    ),
            decreases payload@.len() - i,
        {
            let word = WordCodec::decode_be(payload[i], payload[i + 1]);
            words.push(word);
            i = i + 2;
        }
        proof {
            assert(words@ =~= fifo_words(payload@));
        }
        words
    }
}

/// Decoding holds no hidden state: the words a payload denotes are a function
/// of the payload bytes alone, so two decodes of one buffer — and
/// `parse_response`, whose contract pins its result to `fifo_words` — give
/// equal sequences.
pub proof fn lemma_fifo_decode_deterministic(payload: Seq<u8>, first: Seq<u16>, second: Seq<u16>)
    requires
        first == fifo_words(payload),
        second == fifo_words(payload),
    ensures
        first == second,
{
}

/// Round trip: a response made of the header `[0, 0, 0, n]` followed by the
/// big-endian encodings of the words `ws` decodes to exactly `ws`, in order.
pub proof fn lemma_fifo_round_trip(n: u8, ws: Seq<u16>)
    requires
        ws.len() == n,
    ensures
        fifo_words(seq![0u8, 0u8, 0u8, n] + be_words_bytes(ws)) == ws,
{
    let bytes = seq![0u8, 0u8, 0u8, n] + be_words_bytes(ws);
    assert(bytes.len() == 4 + 2 * ws.len());
    assert forall|i: int| 0 <= i < ws.len() implies fifo_words(bytes)[i] == ws[i] by {
        assert(bytes[4 + 2 * i] == be_words_bytes(ws)[2 * i]);
        assert(bytes[5 + 2 * i] == be_words_bytes(ws)[2 * i + 1]);
        assert((2 * i) % 2 == 0 && (2 * i) / 2 == i);
        assert((2 * i + 1) % 2 == 1 && (2 * i + 1) / 2 == i);
        crate::words::lemma_be_word_round_trip(ws[i], be_hi(ws[i]), be_lo(ws[i]));
    }
    assert(fifo_words(bytes) =~= ws);
}

} // verus!
