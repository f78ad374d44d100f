//! Read File Record (function 0x14): request layout and response decoding.

use vstd::prelude::*;

use crate::errors::DecodeError;
use crate::words::{be_hi, be_lo, be_word, WordCodec};

verus! {

/// Function code of the Read File Record operation.
pub const READ_FILE_RECORD: u8 = 0x14;

/// Reference type of a file-record sub-request; the protocol fixes it at 6.
pub const FILE_RECORD_REFERENCE_TYPE: u8 = 6;

/// Decoded Read File Record response: the three header bytes, then the
/// record's payload as 16-bit words.
#[derive(Debug, Clone, PartialEq, Eq)]
pub struct FileRecord {
    pub resp_data_len: u8,
    pub file_resp_len: u8,
    pub ref_type: u8,
    pub record_data: Vec<u16>,
}

/// Mathematical image of a `FileRecord`.
pub struct FileRecordView {
    pub resp_data_len: u8,
    pub file_resp_len: u8,
    pub ref_type: u8,
    pub record_data: Seq<u16>,
}

impl View for FileRecord {
    type V = FileRecordView;

    open spec fn view(&self) -> FileRecordView {
        FileRecordView {
            resp_data_len: self.resp_data_len,
            file_resp_len: self.file_resp_len,
            ref_type: self.ref_type,
            record_data: self.record_data@,
        }
    }
}

/// Request payload: its own length as a leading byte (always 7, for the seven
/// bytes that follow), the fixed reference type, then the three arguments as
/// big-endian byte pairs.
pub open spec fn file_record_request(
    file_number: u16,
    starting_record: u16,
    record_length: u16,
) -> Seq<u8> {
    seq![
        7u8,
        FILE_RECORD_REFERENCE_TYPE,
        be_hi(file_number),
        be_lo(file_number),
        be_hi(starting_record),
        be_lo(starting_record),
        be_hi(record_length),
        be_lo(record_length),
    ]
}

/// How many whole words the record region of a `len`-byte response holds.
/// The region starts at offset 2; a lone trailing byte belongs to no word.
pub open spec fn record_word_count(len: nat) -> nat
    recommends
        len >= 5,
{
    ((len - 2) / 2) as nat
}

/// The `i`-th record word of a response: the big-endian pair at offset
/// `2 + 2 i`.
pub open spec fn record_word(bytes: Seq<u8>, i: int) -> u16
    recommends
        0 <= i < record_word_count(bytes.len()),
{
    be_word(bytes[2 + 2 * i], bytes[3 + 2 * i])
}

/// The file record that a payload of at least five bytes denotes.
pub open spec fn file_record_of(bytes: Seq<u8>) -> FileRecordView
    recommends
        bytes.len() >= 5,
{
    FileRecordView {
        resp_data_len: bytes[0],
        file_resp_len: bytes[1],
        ref_type: bytes[2],
        record_data: Seq::new(
            record_word_count(bytes.len()),
            |i: int| record_word(bytes, i),
        ),
    }
}

/// Builds Read File Record requests and decodes their responses. Exactly one
/// file/record/length triple is sent per request.
pub struct FileRecordCodec;

impl FileRecordCodec {
    /// Encode one Read File Record sub-request.
    pub fn build_request(file_number: u16, starting_record: u16, record_length: u16) -> (r: Vec<
        u8,
    >)
        ensures
            r@ == file_record_request(file_number, starting_record, record_length),
    {
        let (fn_hi, fn_lo) = WordCodec::encode_be(file_number);
        let (sr_hi, sr_lo) = WordCodec::encode_be(starting_record);
        let (rl_hi, rl_lo) = WordCodec::encode_be(record_length);
        let mut r: Vec<u8> = Vec::new();
        r.push(7);
        r.push(FILE_RECORD_REFERENCE_TYPE);
        r.push(fn_hi);
        r.push(fn_lo);
        r.push(sr_hi);
        r.push(sr_lo);
        r.push(rl_hi);
        r.push(rl_lo);
        proof {
            assert(r@ =~= file_record_request(file_number, starting_record, record_length));
        }
        r
    }

    /// Decode a Read File Record response payload. A payload shorter than the
    /// five bytes the fixed structure requires is rejected; otherwise the
    /// result is exactly the structure the payload denotes.
    pub fn parse_response(payload: &[u8]) -> (r: Result<FileRecord, DecodeError>)
        ensures
            r is Ok <==> payload@.len() >= 5,
            r matches Ok(record) ==> record@ == file_record_of(payload@),
            r matches Err(e) ==> e == DecodeError::TooShort,
    {
        if payload.len() < 5 {
            return Err(DecodeError::TooShort);
        }
        let resp_data_len = payload[0];
        let file_resp_len = payload[1];
        let ref_type = payload[2];
        let mut record_data: Vec<u16> = Vec::new();
        let mut i: usize = 2;
        while i < payload.len() - 1
            invariant
                5 <= payload@.len(),
                2 <= i,
                i % 2 == 0,
                i <= payload@.len(),
                record_data@.len() == (i - 2) / 2,
                forall|j: int|
                    0 <= j < record_data@.len() ==> record_data@[j] == record_word(payload@, j),
            decreases payload@.len() - i,
        {
            let word = WordCodec::decode_be(payload[i], payload[i + 1]);
            record_data.push(word);
            i = i + 2;
        }
        let record = FileRecord { resp_data_len, file_resp_len, ref_type, record_data };
        proof {
            assert(record@.record_data =~= file_record_of(payload@).record_data);
        }
        Ok(record)
    }
}

/// Decoding holds no hidden state: the record a payload denotes is a function
/// of the payload bytes alone, so two decodes of one buffer — and
/// `parse_response`, whose contract pins its result to `file_record_of` —
/// give structurally equal records.
pub proof fn lemma_file_record_decode_deterministic(
    payload: Seq<u8>,
    first: FileRecordView,
    second: FileRecordView,
)
    requires
        payload.len() >= 5,
        first == file_record_of(payload),
        second == file_record_of(payload),
    ensures
        first == second,
{
}

/// Round trip: a response laid out as the request implies — the three header
/// bytes followed by the requested words, two bytes each — decodes to a record
/// of exactly `record_length` words. The response layout depends on
/// `record_length` alone; the file number and starting record select which
/// record is read, not how the response is shaped.
pub proof fn lemma_file_record_round_trip(record_length: u16, response: Seq<u8>)
    requires
        1 <= record_length,
        response.len() == 3 + 2 * (record_length as int),
    ensures
        response.len() >= 5,
        file_record_of(response).record_data.len() == record_length,
{
}

} // verus!
