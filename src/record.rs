//! The weighting configuration record and its fixed-width encoding.
use vstd::bytes::{
    lemma_auto_spec_u64_to_from_le_bytes, spec_u64_from_le_bytes, spec_u64_to_le_bytes,
    u64_from_le_bytes, u64_to_le_bytes,
};
use vstd::prelude::*;
use vstd::slice::slice_subrange;

use crate::error::ReadError;

verus! {

/// Bytes of account metadata that the on-chain program keeps ahead of the
/// record: a version byte and the 32-byte authority.
pub const METADATA_SIZE: usize = 33;

/// Bytes of the record region of the account. The on-chain program lays the
/// record out as one mode byte, seven bytes of alignment, the 8-byte time
/// constant and 16 reserved bytes.
pub const RECORD_SIZE: usize = 32;

/// Length of an encoded record: the mode byte and the little-endian time
/// constant. The reserved block is not written.
pub const ENCODED_LEN: usize = 9;

/// Number of reserved bytes kept for later versions of the record.
pub const RESERVED_LEN: usize = 16;

/// The configuration written into the account.
#[derive(Clone, Copy, Debug)]
pub struct WeightingConfig {
    /// 0 selects static weighting, 1 dynamic weighting.
    pub weighting_mode: u8,
    /// Time constant of the weight filter, in milliseconds.
    pub tc_ms: u64,
    reserved: [u8; 16],
}

/// What a record holds.
pub struct RecordView {
    pub weighting_mode: u8,
    pub tc_ms: u64,
    pub reserved: Seq<u8>,
}

/// The reserved block of a record as it is made: all zero.
pub open spec fn zero_reserved() -> Seq<u8> {
    Seq::new(RESERVED_LEN as nat, |i: int| 0u8)
}

/// The encoding of a record: the mode byte, then the time constant as 8
/// little-endian bytes.
pub open spec fn encode_record(v: RecordView) -> Seq<u8> {
    seq![v.weighting_mode] + spec_u64_to_le_bytes(v.tc_ms)
}

/// The record that `bytes` encode, if it has the encoded length.
pub open spec fn decode_record(bytes: Seq<u8>) -> Option<RecordView> {
    if bytes.len() == ENCODED_LEN {
        Some(
            RecordView {
                weighting_mode: bytes[0],
                tc_ms: spec_u64_from_le_bytes(bytes.subrange(1, 9)),
                reserved: zero_reserved(),
            },
        )
    } else {
        None
    }
}

/// The record's account size: metadata followed by the record region.
pub open spec fn spec_account_size() -> nat {
    (METADATA_SIZE + RECORD_SIZE) as nat
}

impl View for WeightingConfig {
    type V = RecordView;

    closed spec fn view(&self) -> RecordView {
        RecordView {
            weighting_mode: self.weighting_mode,
            tc_ms: self.tc_ms,
            reserved: self.reserved@,
        }
    }
}

impl WeightingConfig {
    pub fn new(weighting_mode: u8, tc_ms: u64) -> (r: Self)
        ensures
            r@ == (RecordView { weighting_mode, tc_ms, reserved: zero_reserved() }),
    {
        let r = Self { weighting_mode, tc_ms, reserved: [0u8; 16] };
        assert(r.reserved@ =~= zero_reserved());
        r
    }

    /// The record's fixed-width encoding: the mode byte, then the time
    /// constant as 8 little-endian bytes.
    pub fn as_bytes(&self) -> (r: [u8; 9])
        ensures
            r@ == encode_record(self@),
    {
        let le = u64_to_le_bytes(self.tc_ms);
        let r = [self.weighting_mode, le[0], le[1], le[2], le[3], le[4], le[5], le[6], le[7]];
        assert(r@ =~= encode_record(self@));
        r
    }

    /// Reads a record from its encoding; the reserved block comes back zero.
    pub fn from_bytes(bytes: &[u8]) -> (r: Result<Self, ReadError>)
        ensures
            match r {
                Ok(c) => decode_record(bytes@) == Some(c@),
                Err(e) => decode_record(bytes@) is None && e == ReadError::MalformedRecord,
            },
    {
        if bytes.len() != ENCODED_LEN {
            return Err(ReadError::MalformedRecord);
        }
        let tc_ms = u64_from_le_bytes(slice_subrange(bytes, 1, 9));
        Ok(Self::new(bytes[0], tc_ms))
    }
}

/// Size of the account that holds a record: metadata, then the record region.
pub fn account_size() -> (r: usize)
    ensures
        r == spec_account_size(),
{
    METADATA_SIZE + RECORD_SIZE
}

/// Decoding an encoded record gives back the record, and a decoded record's
/// reserved block is all zero.
pub proof fn lemma_round_trip(v: RecordView)
    requires
        v.reserved == zero_reserved(),
    ensures
        decode_record(encode_record(v)) == Some(v),
        forall|b: Seq<u8>| #[trigger] decode_record(b) matches Some(d) ==> d.reserved == zero_reserved(),
{
    lemma_auto_spec_u64_to_from_le_bytes();
    let e = encode_record(v);
    assert(e.subrange(1, 9) =~= spec_u64_to_le_bytes(v.tc_ms));
}

/// Every block of the encoded length is the encoding of the record it
/// decodes to, so the encoding is injective and no byte of it is lost.
pub proof fn lemma_decode_then_encode(bytes: Seq<u8>)
    requires
        bytes.len() == ENCODED_LEN,
    ensures
        decode_record(bytes) matches Some(v) && encode_record(v) == bytes,
{
    lemma_auto_spec_u64_to_from_le_bytes();
    let v = decode_record(bytes)->0;
    assert(bytes.subrange(1, 9).len() == 8);
    assert(encode_record(v) =~= bytes);
}

/// Every record encodes to exactly the encoded length, whatever its fields.
pub proof fn lemma_fixed_width(v: RecordView)
    ensures
        encode_record(v).len() == ENCODED_LEN,
{
    lemma_auto_spec_u64_to_from_le_bytes();
}

/// The account is larger than its metadata, and its size is the same for
/// every record.
pub proof fn lemma_account_size()
    ensures
        spec_account_size() > METADATA_SIZE,
        spec_account_size() >= METADATA_SIZE + ENCODED_LEN,
{
}

} // verus!
