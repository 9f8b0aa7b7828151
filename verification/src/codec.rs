//! The record layout codec: the fixed byte layout of a record buffer, spec
//! functions that read each field of it, and exec accessors proved against
//! them.
//!
//! A record buffer is laid out as
//!
//! | field          | offset            |
//! |----------------|-------------------|
//! | authority      | 0 .. 32           |
//! | label          | 32 .. 62          |
//! | last_updated   | 62 .. 70          |
//! | bump           | 70                |
//! | is_initialized | 71                |
//! | data_length    | 72 .. 74          |
//! | data           | 74 .. 74 + length |
//!
//! with every integer little-endian.
use vstd::bytes::lemma_auto_spec_u16_to_from_le_bytes;
use vstd::bytes::lemma_auto_spec_u64_to_from_le_bytes;
use vstd::bytes::spec_u16_from_le_bytes;
use vstd::bytes::spec_u16_to_le_bytes;
use vstd::bytes::spec_u64_from_le_bytes;
use vstd::bytes::spec_u64_to_le_bytes;
use vstd::bytes::u16_from_le_bytes;
use vstd::bytes::u16_to_le_bytes;
use vstd::bytes::u64_from_le_bytes;
use vstd::bytes::u64_to_le_bytes;
use vstd::prelude::*;

verus! {

/// Byte offset of the record's authority key.
pub const AUTHORITY_OFFSET: usize = 0;

/// Byte offset of the record's label.
pub const LABEL_OFFSET: usize = 32;

/// Byte offset of the record's last-updated timestamp.
pub const LAST_UPDATED_OFFSET: usize = 62;

/// Byte offset of the record's stored disambiguation nonce.
pub const BUMP_OFFSET: usize = 70;

/// Byte offset of the record's initialization flag.
pub const IS_INITIALIZED_OFFSET: usize = 71;

/// Byte offset of the record's payload length.
pub const DATA_LENGTH_OFFSET: usize = 72;

/// Byte offset of the record's payload; also the size of the fixed header.
pub const DATA_OFFSET: usize = 74;

/// The authority field of a record buffer.
pub open spec fn stored_authority(data: Seq<u8>) -> Seq<u8> {
    data.subrange(0, 32)
}

/// The label field of a record buffer.
pub open spec fn stored_label(data: Seq<u8>) -> Seq<u8> {
    data.subrange(32, 62)
}

/// The last-updated timestamp of a record buffer.
pub open spec fn stored_last_updated(data: Seq<u8>) -> i64 {
    spec_u64_from_le_bytes(data.subrange(62, 70)) as i64
}

/// The stored disambiguation nonce of a record buffer.
pub open spec fn stored_bump(data: Seq<u8>) -> u8 {
    data[70]
}

/// The initialization flag of a record buffer: any nonzero byte counts as
/// initialized.
pub open spec fn stored_is_initialized(data: Seq<u8>) -> bool {
    data[71] != 0
}

/// The payload length field of a record buffer.
pub open spec fn stored_data_length(data: Seq<u8>) -> u16 {
    spec_u16_from_le_bytes(data.subrange(72, 74))
}

/// The payload of a record buffer: everything after the fixed header.
pub open spec fn stored_payload(data: Seq<u8>) -> Seq<u8> {
    data.subrange(74, data.len() as int)
}

/// A record buffer is well formed when it is exactly as long as its stored
/// payload length says.
pub open spec fn record_well_formed(data: Seq<u8>) -> bool {
    data.len() == 74 + stored_data_length(data)
}

/// The bytes of a record with the given fields.
pub open spec fn spec_record_bytes(
    authority: Seq<u8>,
    label: Seq<u8>,
    last_updated: i64,
    bump: u8,
    initialized: bool,
    payload: Seq<u8>,
) -> Seq<u8> {
    authority + label + spec_u64_to_le_bytes(last_updated as u64) + seq![bump] + seq![
        (if initialized {
            1u8
        } else {
            0u8
        }),
    ] + spec_u16_to_le_bytes(payload.len() as u16) + payload
}

/// A buffer with `bytes` written over the range starting at `off`, all else
/// unchanged.
pub open spec fn spec_write_range(data: Seq<u8>, off: int, bytes: Seq<u8>) -> Seq<u8>
    recommends
        0 <= off,
        off + bytes.len() <= data.len(),
{
    data.subrange(0, off) + bytes + data.subrange(off + bytes.len(), data.len() as int)
}

/// A record buffer after an edit: same authority, label, nonce and flag, new
/// timestamp, new payload and payload length.
pub open spec fn spec_edited_bytes(data: Seq<u8>, time: i64, payload: Seq<u8>) -> Seq<u8>
    recommends
        data.len() >= 74,
{
    data.subrange(0, 62) + spec_u64_to_le_bytes(time as u64) + seq![data[70], data[71]]
        + spec_u16_to_le_bytes(payload.len() as u16) + payload
}

/// Copies `src` into `dst` starting at `off`, leaving all other bytes.
pub fn write_range(dst: &mut Vec<u8>, off: usize, src: &Vec<u8>)
    requires
        off + src@.len() <= old(dst)@.len(),
    ensures
        final(dst)@ == spec_write_range(old(dst)@, off as int, src@),
{
    let dst_len: usize = dst.len();
    let mut i: usize = 0;
    while i < src.len()
        invariant
            i <= src@.len(),
            off + src@.len() <= dst_len,
            dst@.len() == dst_len,
            dst@.len() == old(dst)@.len(),
            forall|k: int| 0 <= k < dst@.len() && !(off <= k < off + i) ==> dst@[k] == old(dst)@[k],
            forall|k: int| off <= k < off + i ==> dst@[k] == src@[k - off],
        decreases src@.len() - i,
    {
        dst.set(off + i, src[i]);
        i = i + 1;
    }
    assert(dst@ =~= spec_write_range(old(dst)@, off as int, src@));
}

/// Appends `src` to the end of `dst`.
pub fn append_range(dst: &mut Vec<u8>, src: &Vec<u8>)
    ensures
        final(dst)@ == old(dst)@ + src@,
{
    let mut i: usize = 0;
    while i < src.len()
        invariant
            i <= src@.len(),
            dst@ =~= old(dst)@ + src@.subrange(0, i as int),
        decreases src@.len() - i,
    {
        dst.push(src[i]);
        i = i + 1;
    }
    assert(dst@ =~= old(dst)@ + src@);
}

/// Copies the bytes of `src` in the range `start .. end` out into a fresh
/// vector.
pub fn read_range(src: &Vec<u8>, start: usize, end: usize) -> (r: Vec<u8>)
    requires
        start <= end <= src@.len(),
    ensures
        r@ == src@.subrange(start as int, end as int),
{
    let mut out: Vec<u8> = Vec::new();
    let mut i: usize = start;
    while i < end
        invariant
            start <= i <= end <= src@.len(),
            out@ =~= src@.subrange(start as int, i as int),
        decreases end - i,
    {
        out.push(src[i]);
        i = i + 1;
    }
    assert(out@ =~= src@.subrange(start as int, end as int));
    out
}

/// Returns a buffer of `n` zero bytes, as the environment's allocator
/// hands it out.
pub fn zero_bytes(n: usize) -> (r: Vec<u8>)
    ensures
        r@ == Seq::new(n as nat, |i: int| 0u8),
{
    let mut out: Vec<u8> = Vec::new();
    let mut i: usize = 0;
    while i < n
        invariant
            i <= n,
            out@.len() == i,
            forall|k: int| 0 <= k < i ==> out@[k] == 0u8,
        decreases n - i,
    {
        out.push(0u8);
        i = i + 1;
    }
    assert(out@ =~= Seq::new(n as nat, |i: int| 0u8));
    out
}

/// The little-endian encoding of a zero timestamp is all zero bytes: a
/// freshly allocated buffer already carries it.
pub proof fn lemma_u64_zero_le_bytes()
    ensures
        spec_u64_to_le_bytes(0u64) == Seq::new(8, |i: int| 0u8),
{
    vstd::bytes::spec_u64_to_le_bytes_to_open(0u64);
    assert((0u64 & 0xff) == 0 && ((0u64 >> 8) & 0xff) == 0 && ((0u64 >> 16) & 0xff) == 0 && ((0u64
        >> 24) & 0xff) == 0 && ((0u64 >> 32) & 0xff) == 0 && ((0u64 >> 40) & 0xff) == 0 && ((0u64
        >> 48) & 0xff) == 0 && ((0u64 >> 56) & 0xff) == 0) by (bit_vector);
    assert(spec_u64_to_le_bytes(0u64) =~= Seq::new(8, |i: int| 0u8));
}

/// Reads the authority field of a record buffer.
pub fn read_authority(data: &Vec<u8>) -> (r: Vec<u8>)
    requires
        data@.len() >= 32,
    ensures
        r@ == stored_authority(data@),
{
    read_range(data, 0, 32)
}

/// Reads the label field of a record buffer.
pub fn read_label(data: &Vec<u8>) -> (r: Vec<u8>)
    requires
        data@.len() >= 62,
    ensures
        r@ == stored_label(data@),
{
    read_range(data, 32, 62)
}

/// Reads the last-updated timestamp of a record buffer.
pub fn read_last_updated(data: &Vec<u8>) -> (r: i64)
    requires
        data@.len() >= 70,
    ensures
        r == stored_last_updated(data@),
{
    let bytes = read_range(data, 62, 70);
    let raw = u64_from_le_bytes(bytes.as_slice());
    raw as i64
}

/// Reads the stored disambiguation nonce of a record buffer.
pub fn read_bump(data: &Vec<u8>) -> (r: u8)
    requires
        data@.len() >= 71,
    ensures
        r == stored_bump(data@),
{
    data[70]
}

/// Reads the initialization flag of a record buffer.
pub fn read_is_initialized(data: &Vec<u8>) -> (r: bool)
    requires
        data@.len() >= 72,
    ensures
        r == stored_is_initialized(data@),
{
    data[71] != 0
}

/// Reads the payload length field of a record buffer.
pub fn read_data_length(data: &Vec<u8>) -> (r: u16)
    requires
        data@.len() >= 74,
    ensures
        r == stored_data_length(data@),
{
    let bytes = read_range(data, 72, 74);
    u16_from_le_bytes(bytes.as_slice())
}

/// Reads the payload of a record buffer.
pub fn read_payload(data: &Vec<u8>) -> (r: Vec<u8>)
    requires
        data@.len() >= 74,
    ensures
        r@ == stored_payload(data@),
{
    read_range(data, 74, data.len())
}

/// Builds the buffer of a freshly created record: timestamp zero, flag set.
pub fn build_record_bytes(authority: &Vec<u8>, label: &Vec<u8>, bump: u8, payload: &Vec<u8>) -> (r:
    Vec<u8>)
    requires
        authority@.len() == 32,
        label@.len() == 30,
        payload@.len() <= 65535,
    ensures
        r@ == spec_record_bytes(authority@, label@, 0, bump, true, payload@),
{
    proof {
        lemma_auto_spec_u16_to_from_le_bytes();
        lemma_auto_spec_u64_to_from_le_bytes();
    }
    let mut out: Vec<u8> = Vec::new();
    append_range(&mut out, authority);
    append_range(&mut out, label);
    let time_bytes = u64_to_le_bytes(0u64);
    append_range(&mut out, &time_bytes);
    out.push(bump);
    out.push(1u8);
    let len_bytes = u16_to_le_bytes(payload.len() as u16);
    append_range(&mut out, &len_bytes);
    append_range(&mut out, payload);
    assert(out@ =~= spec_record_bytes(authority@, label@, 0, bump, true, payload@));
    out
}

/// Rewrites a record buffer in place for an edit: stamps the timestamp,
/// stores the new payload length, replaces the payload, and resizes the
/// buffer to fit.
pub fn apply_edit_bytes(data: &mut Vec<u8>, time: i64, payload: &Vec<u8>)
    requires
        old(data)@.len() >= 74,
        payload@.len() <= 65535,
    ensures
        final(data)@ == spec_edited_bytes(old(data)@, time, payload@),
        final(data)@.len() == 74 + payload@.len(),
{
    proof {
        lemma_auto_spec_u16_to_from_le_bytes();
        lemma_auto_spec_u64_to_from_le_bytes();
    }
    let time_bytes = u64_to_le_bytes(time as u64);
    write_range(data, LAST_UPDATED_OFFSET, &time_bytes);
    data.truncate(DATA_LENGTH_OFFSET);
    let len_bytes = u16_to_le_bytes(payload.len() as u16);
    append_range(data, &len_bytes);
    append_range(data, payload);
    assert(data@ =~= spec_edited_bytes(old(data)@, time, payload@));
}

/// The fields written at creation are read back unchanged: the layout's
/// round-trip law. A buffer built from (authority, label, timestamp, nonce,
/// flag, payload) is `74 + payload.len()` bytes long, is well formed, and
/// every field accessor returns exactly what was written.
pub proof fn lemma_record_round_trip(
    authority: Seq<u8>,
    label: Seq<u8>,
    last_updated: i64,
    bump: u8,
    initialized: bool,
    payload: Seq<u8>,
)
    requires
        authority.len() == 32,
        label.len() == 30,
        payload.len() <= 65535,
    ensures
        spec_record_bytes(authority, label, last_updated, bump, initialized, payload).len() == 74
            + payload.len(),
        record_well_formed(spec_record_bytes(authority, label, last_updated, bump, initialized, payload)),
        stored_authority(spec_record_bytes(authority, label, last_updated, bump, initialized, payload))
            == authority,
        stored_label(spec_record_bytes(authority, label, last_updated, bump, initialized, payload))
            == label,
        stored_last_updated(spec_record_bytes(authority, label, last_updated, bump, initialized, payload))
            == last_updated,
        stored_bump(spec_record_bytes(authority, label, last_updated, bump, initialized, payload))
            == bump,
        stored_is_initialized(spec_record_bytes(authority, label, last_updated, bump, initialized, payload))
            == initialized,
        stored_data_length(spec_record_bytes(authority, label, last_updated, bump, initialized, payload))
            == payload.len(),
        stored_payload(spec_record_bytes(authority, label, last_updated, bump, initialized, payload))
            == payload,
{
    lemma_auto_spec_u16_to_from_le_bytes();
    lemma_auto_spec_u64_to_from_le_bytes();
    let r = spec_record_bytes(authority, label, last_updated, bump, initialized, payload);
    assert(r.len() == 74 + payload.len());
    assert(stored_authority(r) =~= authority);
    assert(stored_label(r) =~= label);
    assert(r.subrange(62, 70) =~= spec_u64_to_le_bytes(last_updated as u64));
    assert(((last_updated as u64) as i64) == last_updated) by (bit_vector);
    assert(r.subrange(72, 74) =~= spec_u16_to_le_bytes(payload.len() as u16));
    assert(stored_data_length(r) == payload.len() as u16);
    assert(stored_payload(r) =~= payload);
}

} // verus!
