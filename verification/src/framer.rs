//! Pulse pattern to device reports.
//!
//! A pattern travels in chunks of at most 56 bytes. Every chunk is wrapped
//! in a report: a six-byte header that names the pattern's length, the
//! chunk's offset and the chunk's length, the chunk itself, and a two-byte
//! footer. All three header quantities count units of four bytes, the size
//! of one pulse. After the last chunk a fixed report asks the device to
//! transmit what it was given.

use vstd::prelude::*;

verus! {

/// The most pattern bytes that one report carries.
pub const CHUNK_PAYLOAD: usize = 56;

/// The opcode that opens the header of every chunk report.
pub const SET_CODE: u8 = 0x34;

/// The two bytes that close every chunk report.
pub const FOOTER: [u8; 2] = [0x00, 0x00];

/// The report that makes the device transmit the pattern it holds.
pub const TRIGGER: [u8; 64] = [
    0x35, 0x94, 0x70, 0x00, 0x2a, 0x00, 0x00, 0x11, 0x00, 0x34, 0x00, 0x10, 0x00, 0x12, 0x00, 0x11,
    0x00, 0x33, 0x00, 0x11, 0x00, 0x12, 0x00, 0x11, 0x00, 0x12, 0x00, 0x10, 0x00, 0x13, 0x00, 0x11,
    0x00, 0x34, 0x00, 0x10, 0x00, 0x34, 0x00, 0x10, 0x00, 0x12, 0x00, 0x11, 0x00, 0x12, 0x00, 0x11,
    0x00, 0x34, 0x00, 0x10, 0x00, 0x12, 0x00, 0x11, 0x00, 0x12, 0x00, 0x11, 0x0b, 0x1c, 0x00, 0x00,
];

/// How many chunks a pattern of `total` bytes is cut into: `total / 56`,
/// rounded up.
pub open spec fn chunk_count(total: nat) -> nat {
    (total + 55) / 56
}

/// Where chunk `index` starts in the pattern.
pub open spec fn chunk_offset(index: nat) -> nat {
    56 * index
}

/// How many pattern bytes chunk `index` carries: 56, or what is left of the
/// pattern for the last chunk.
pub open spec fn chunk_len(total: nat, index: nat) -> nat {
    if chunk_offset(index) + 56 <= total {
        56
    } else {
        (total - chunk_offset(index)) as nat
    }
}

/// The low sixteen bits of `value`, high byte first.
pub open spec fn field16(value: nat) -> Seq<u8> {
    seq![(value / 256 % 256) as u8, (value % 256) as u8]
}

/// The header of a chunk of `len` bytes at `offset` in a pattern of `total`
/// bytes.
pub open spec fn header(total: nat, offset: nat, len: nat) -> Seq<u8> {
    seq![SET_CODE] + field16(total / 4) + field16(offset / 4) + seq![(len / 4 % 256) as u8]
}

/// The pattern bytes that chunk `index` carries.
pub open spec fn chunk(code: Seq<u8>, index: nat) -> Seq<u8> {
    code.subrange(
        chunk_offset(index) as int,
        (chunk_offset(index) + chunk_len(code.len(), index)) as int,
    )
}

/// The report for chunk `index` of a pattern.
pub open spec fn report(code: Seq<u8>, index: nat) -> Seq<u8> {
    header(code.len(), chunk_offset(index), chunk_len(code.len(), index)) + chunk(code, index)
        + FOOTER@
}

/// The reports for all chunks of a pattern, in the order of their offsets.
pub open spec fn reports(code: Seq<u8>) -> Seq<Seq<u8>> {
    Seq::new(chunk_count(code.len()), |index: int| report(code, index as nat))
}

/// Everything that is written for a pattern: the chunk reports, then the
/// trigger.
pub open spec fn writes(code: Seq<u8>) -> Seq<Seq<u8>> {
    reports(code).push(TRIGGER@)
}

/// The pattern bytes inside a chunk report: what stands between header and
/// footer.
pub open spec fn payload(bytes: Seq<u8>) -> Seq<u8> {
    bytes.subrange(6, bytes.len() - 2)
}

/// The pattern length that a report's header names, in units of four bytes.
pub open spec fn total_field(bytes: Seq<u8>) -> nat {
    (bytes[1] * 256 + bytes[2]) as nat
}

/// The chunk offset that a report's header names, in units of four bytes.
pub open spec fn offset_field(bytes: Seq<u8>) -> nat {
    (bytes[3] * 256 + bytes[4]) as nat
}

/// The chunk length that a report's header names, in units of four bytes.
pub open spec fn len_field(bytes: Seq<u8>) -> nat {
    bytes[5] as nat
}

/// The payload lengths of the first `count` reports, summed.
pub open spec fn payload_total(list: Seq<Seq<u8>>, count: nat) -> nat
    decreases count,
{
    if count == 0 {
        0
    } else {
        payload_total(list, (count - 1) as nat) + payload(list[count - 1]).len()
    }
}

/// The payloads of the first `count` reports, joined in order.
pub open spec fn payloads(list: Seq<Seq<u8>>, count: nat) -> Seq<u8>
    decreases count,
{
    if count == 0 {
        Seq::empty()
    } else {
        payloads(list, (count - 1) as nat) + payload(list[count - 1])
    }
}

/// The chunk count is the pattern length divided by 56 and rounded up: the
/// chunks before the last one do not reach the pattern's end, and all of
/// them together do.
pub proof fn law_chunk_count(total: nat)
    ensures
        56 * chunk_count(total) >= total,
        chunk_count(total) > 0 ==> 56 * (chunk_count(total) - 1) < total,
        total % 56 == 0 ==> 56 * chunk_count(total) == total,
        chunk_count(total) == 0 <==> total == 0,
{
}

/// The shape of one chunk report: header, between one and 56 pattern bytes
/// taken from the chunk's offset, footer, at most 64 bytes in all. The
/// header names the pattern's length, the offset and the chunk's length in
/// units of four bytes, the first two reduced to sixteen bits.
pub proof fn law_report(code: Seq<u8>, index: nat)
    requires
        index < chunk_count(code.len()),
    ensures
        1 <= chunk_len(code.len(), index) <= 56,
        chunk_offset(index) + chunk_len(code.len(), index) <= code.len(),
        index + 1 < chunk_count(code.len()) ==> chunk_len(code.len(), index) == 56,
        index + 1 == chunk_count(code.len()) ==> chunk_offset(index) + chunk_len(
            code.len(),
            index,
        ) == code.len(),
        report(code, index).len() == 6 + chunk_len(code.len(), index) + 2,
        report(code, index)[0] == SET_CODE,
        total_field(report(code, index)) == (code.len() / 4) % 0x10000,
        offset_field(report(code, index)) == (chunk_offset(index) / 4) % 0x10000,
        len_field(report(code, index)) == chunk_len(code.len(), index) / 4,
        payload(report(code, index)) == chunk(code, index),
        report(code, index).subrange(report(code, index).len() - 2, report(code, index).len() as int)
            == FOOTER@,
        code.len() % 4 == 0 ==> 4 * len_field(report(code, index)) == chunk_len(code.len(), index),
{
    let bytes = report(code, index);
    let head = header(code.len(), chunk_offset(index), chunk_len(code.len(), index));
    assert(head.len() == 6);
    assert(payload(bytes) =~= chunk(code, index));
    assert(bytes.subrange(bytes.len() - 2, bytes.len() as int) =~= FOOTER@);
    assert(bytes[1] == head[1] && bytes[2] == head[2] && bytes[3] == head[3] && bytes[4] == head[4]
        && bytes[5] == head[5] && bytes[0] == head[0]);
}

/// The first `count` reports carry the first `56 * count` bytes of the
/// pattern, or all of it when it is shorter.
pub proof fn law_payload_prefix(code: Seq<u8>, count: nat)
    requires
        count <= chunk_count(code.len()),
    ensures
        payload_total(reports(code), count) == payloads(reports(code), count).len(),
        payload_total(reports(code), count) == if 56 * count <= code.len() {
            56 * count
        } else {
            code.len()
        },
        payloads(reports(code), count) == code.subrange(
            0,
            payload_total(reports(code), count) as int,
        ),
    decreases count,
{
    if count > 0 {
        let before = (count - 1) as nat;
        law_payload_prefix(code, before);
        law_report(code, before);
        assert(reports(code)[before as int] == report(code, before));
        assert(payloads(reports(code), count) =~= code.subrange(
            0,
            payload_total(reports(code), count) as int,
        ));
    } else {
        assert(payloads(reports(code), count) =~= code.subrange(0, 0));
    }
}

/// What the header of chunk `index` says of the chunks before it: its offset
/// field is the summed length of their payloads, divided by four and kept to
/// sixteen bits, and so that quotient itself wherever it fits. Its length
/// field, times four, is the length of its own payload.
pub proof fn law_chunk_fields(code: Seq<u8>, index: nat)
    requires
        code.len() % 4 == 0,
        index < chunk_count(code.len()),
    ensures
        payload_total(reports(code), index) == 56 * index,
        offset_field(reports(code)[index as int]) == (payload_total(reports(code), index) / 4)
            % 0x10000,
        payload_total(reports(code), index) / 4 <= 0xffff ==> offset_field(
            reports(code)[index as int],
        ) == payload_total(reports(code), index) / 4,
        4 * len_field(reports(code)[index as int]) == payload(reports(code)[index as int]).len(),
{
    law_payload_prefix(code, index);
    law_report(code, index);
    assert(reports(code)[index as int] == report(code, index));
}

/// The last header's length field, times four, is what the chunks before it
/// left of the pattern: the pattern's length modulo 56, or 56 where that is
/// zero.
pub proof fn law_last_chunk(code: Seq<u8>)
    requires
        code.len() % 4 == 0,
        code.len() > 0,
    ensures
        reports(code).len() > 0,
        4 * len_field(reports(code).last()) == code.len() - 56 * (reports(code).len() - 1),
        4 * len_field(reports(code).last()) == if code.len() % 56 == 0 {
            56
        } else {
            code.len() % 56
        },
{
    let last = (chunk_count(code.len()) - 1) as nat;
    law_report(code, last);
    assert(reports(code).last() == report(code, last));
}

/// Framing a pattern whose length `T` is a multiple of four:
///
/// * there are `T / 56` chunks, rounded up;
/// * their payloads, joined in order, are the pattern, so their lengths add
///   up to `T`;
/// * every header's offset field is the summed length of the payloads before
///   it, divided by four, as long as that fits in sixteen bits (the field
///   keeps the low sixteen bits in any case).
pub proof fn law_chunking(code: Seq<u8>)
    requires
        code.len() % 4 == 0,
    ensures
        reports(code).len() == chunk_count(code.len()),
        56 * reports(code).len() >= code.len(),
        reports(code).len() > 0 ==> 56 * (reports(code).len() - 1) < code.len(),
        payloads(reports(code), reports(code).len()) == code,
        payload_total(reports(code), reports(code).len()) == code.len(),
        forall|index: nat|
            #![trigger reports(code)[index as int]]
            index < reports(code).len() ==> {
                &&& offset_field(reports(code)[index as int]) == (payload_total(
                    reports(code),
                    index,
                ) / 4) % 0x10000
                &&& payload_total(reports(code), index) / 4 <= 0xffff ==> offset_field(
                    reports(code)[index as int],
                ) == payload_total(reports(code), index) / 4
            },
{
    let list = reports(code);
    law_payload_prefix(code, list.len());
    assert(code.subrange(0, code.len() as int) =~= code);
    assert forall|index: nat| #![trigger list[index as int]] index < list.len() implies {
        &&& offset_field(list[index as int]) == (payload_total(list, index) / 4) % 0x10000
        &&& payload_total(list, index) / 4 <= 0xffff ==> offset_field(list[index as int])
            == payload_total(list, index) / 4
    } by {
        law_chunk_fields(code, index);
    }
}

/// Builds the header of one chunk report.
pub fn chunk_header(total: usize, offset: usize, len: usize) -> (bytes: [u8; 6])
    ensures
        bytes@ == header(total as nat, offset as nat, len as nat),
{
    let total_units: usize = total / 4;
    let offset_units: usize = offset / 4;
    let len_units: usize = len / 4;
    let bytes: [u8; 6] = [
        SET_CODE,
        (total_units / 256 % 256) as u8,
        (total_units % 256) as u8,
        (offset_units / 256 % 256) as u8,
        (offset_units % 256) as u8,
        (len_units % 256) as u8,
    ];
    assert(bytes@ =~= header(total as nat, offset as nat, len as nat));
    bytes
}

/// Counts the chunks of a pattern of `total` bytes.
pub fn count_chunks(total: usize) -> (count: usize)
    ensures
        count == chunk_count(total as nat),
{
    if total % CHUNK_PAYLOAD == 0 {
        total / CHUNK_PAYLOAD
    } else {
        total / CHUNK_PAYLOAD + 1
    }
}

/// Builds the report for chunk `index` of a pattern whose length is a
/// multiple of four.
pub fn frame_chunk(code: &[u8], index: usize) -> (bytes: Vec<u8>)
    requires
        code@.len() % 4 == 0,
        index < chunk_count(code@.len()),
    ensures
        bytes@ == report(code@, index as nat),
        bytes@.len() == 8 + chunk_len(code@.len(), index as nat),
        bytes@.len() <= 64,
{
    let total: usize = code.len();
    assert(56 * index < total);
    let offset: usize = CHUNK_PAYLOAD * index;
    let remaining: usize = total - offset;
    let len: usize = if remaining < CHUNK_PAYLOAD {
        remaining
    } else {
        CHUNK_PAYLOAD
    };
    let head: [u8; 6] = chunk_header(total, offset, len);
    let mut bytes: Vec<u8> = Vec::new();
    bytes.extend_from_slice(&head);
    bytes.extend_from_slice(&code[offset..offset + len]);
    bytes.extend_from_slice(&FOOTER);
    bytes
}

/// Cuts a pattern into chunks and frames each one.
///
/// The pattern's length has to be a multiple of four, as that of every
/// encoded pattern is. The result holds one report per chunk, in the order
/// of the offsets; an empty pattern gives no report, and one whose length is
/// a multiple of 56 gives no empty last chunk.
pub fn set_code(code: &[u8]) -> (out: Vec<Vec<u8>>)
    requires
        code@.len() % 4 == 0,
    ensures
        out.deep_view() == reports(code@),
        out@.len() == chunk_count(code@.len()),
        forall|index: int|
            0 <= index < out@.len() ==> (#[trigger] out@[index])@ == report(code@, index as nat),
{
    let count: usize = count_chunks(code.len());
    let mut out: Vec<Vec<u8>> = Vec::new();
    let mut index: usize = 0;
    while index < count
        invariant
            code@.len() % 4 == 0,
            count == chunk_count(code@.len()),
            index <= count,
            out@.len() == index,
            forall|at: int| 0 <= at < index ==> (#[trigger] out@[at])@ == report(code@, at as nat),
        decreases count - index,
    {
        let bytes: Vec<u8> = frame_chunk(code, index);
        out.push(bytes);
        index = index + 1;
    }
    assert(out.deep_view() =~~= reports(code@));
    out
}

/// The report that asks the device to transmit.
pub fn send_req() -> (bytes: Vec<u8>)
    ensures
        bytes@ == TRIGGER@,
{
    let mut bytes: Vec<u8> = Vec::new();
    bytes.extend_from_slice(&TRIGGER);
    bytes
}

} // verus!
