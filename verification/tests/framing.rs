use adir01p::encoder::encode;
use adir01p::framer::{
    chunk_header, frame_chunk, send_req, set_code, CHUNK_PAYLOAD, FOOTER, SET_CODE, TRIGGER,
};

fn pattern(len: usize) -> Vec<u8> {
    (0..len).map(|index| (index % 251) as u8).collect()
}

#[test]
fn one_digit_makes_one_report() {
    let code = encode("1").unwrap();
    let reports = set_code(&code);
    assert_eq!(reports.len(), 1);
    let report = &reports[0];
    assert_eq!(report.len(), 32);
    assert_eq!(&report[..6], &[0x34, 0x00, 0x06, 0x00, 0x00, 0x06]);
    assert_eq!(&report[6..30], &code[..]);
    assert_eq!(&report[30..], &[0x00, 0x00]);
}

#[test]
fn empty_pattern_makes_no_report() {
    assert!(set_code(&[]).is_empty());
}

#[test]
fn fifty_six_bytes_fill_one_report() {
    let code = encode("abc").unwrap();
    assert_eq!(code.len(), 56);
    let reports = set_code(&code);
    assert_eq!(reports.len(), 1);
    assert_eq!(reports[0].len(), 64);
    assert_eq!(&reports[0][..6], &[0x34, 0x00, 0x0e, 0x00, 0x00, 0x0e]);
    assert_eq!(&reports[0][6..62], &code[..]);
    assert_eq!(&reports[0][62..], &FOOTER);
}

#[test]
fn a_multiple_of_fifty_six_has_no_empty_last_chunk() {
    let code = pattern(112);
    let reports = set_code(&code);
    assert_eq!(reports.len(), 2);
    assert_eq!(&reports[1][..6], &[0x34, 0x00, 0x1c, 0x00, 0x0e, 0x0e]);
    assert_eq!(reports[1].len(), 64);
}

#[test]
fn the_last_chunk_may_be_short() {
    let code = encode("0123").unwrap();
    assert_eq!(code.len(), 72);
    let reports = set_code(&code);
    assert_eq!(reports.len(), 2);
    assert_eq!(&reports[0][..6], &[0x34, 0x00, 0x12, 0x00, 0x00, 0x0e]);
    assert_eq!(&reports[0][6..62], &code[..56]);
    assert_eq!(&reports[1][..6], &[0x34, 0x00, 0x12, 0x00, 0x0e, 0x04]);
    assert_eq!(&reports[1][6..22], &code[56..]);
    assert_eq!(reports[1].len(), 24);
    assert_eq!(&reports[1][22..], &[0x00, 0x00]);
}

#[test]
fn chunking_keeps_every_byte_in_order() {
    for units in 0..80 {
        let len = 4 * units;
        let code = pattern(len);
        let reports = set_code(&code);
        assert_eq!(reports.len(), (len + 55) / 56);
        let mut joined: Vec<u8> = Vec::new();
        for (index, report) in reports.iter().enumerate() {
            assert!(report.len() <= 64);
            assert_eq!(report[0], SET_CODE);
            let total = (report[1] as usize) * 256 + report[2] as usize;
            let offset = (report[3] as usize) * 256 + report[4] as usize;
            let count = report[5] as usize;
            assert_eq!(total, len / 4);
            assert_eq!(offset, joined.len() / 4);
            assert_eq!(offset, 14 * index);
            assert_eq!(4 * count, report.len() - 8);
            assert_eq!(&report[report.len() - 2..], &FOOTER);
            joined.extend_from_slice(&report[6..report.len() - 2]);
        }
        assert_eq!(joined, code);
        if let Some(last) = reports.last() {
            let rest = if len % 56 == 0 { 56 } else { len % 56 };
            assert_eq!(4 * last[5] as usize, rest);
        }
    }
}

#[test]
fn header_fields_are_big_endian() {
    let code = pattern(1048);
    let reports = set_code(&code);
    assert_eq!(reports.len(), 19);
    // 1048 / 4 = 0x0106, and the last chunk starts at 1008 = 4 * 0x00fc
    assert_eq!(&reports[18][..6], &[0x34, 0x01, 0x06, 0x00, 0xfc, 0x0a]);
    assert_eq!(chunk_header(1048, 1008, 40), [0x34, 0x01, 0x06, 0x00, 0xfc, 0x0a]);
    assert_eq!(chunk_header(4 * 0x1234, 4 * 0x0abc, 56), [0x34, 0x12, 0x34, 0x0a, 0xbc, 0x0e]);
}

#[test]
fn header_fields_keep_the_low_sixteen_bits() {
    assert_eq!(chunk_header(4 * 0x1_0002, 4 * 0x1_0001, 8), [0x34, 0x00, 0x02, 0x00, 0x01, 0x02]);
    let code = pattern(262_200);
    let reports = set_code(&code);
    assert_eq!(reports.len(), 4683);
    // 262200 / 4 = 0x1_000e; the last chunk starts at 262192 = 4 * 0x1_000c
    assert_eq!(&reports[4682][..6], &[0x34, 0x00, 0x0e, 0x00, 0x0c, 0x02]);
    assert_eq!(&reports[4681][..6], &[0x34, 0x00, 0x0e, 0xff, 0xfe, 0x0e]);
}

#[test]
fn frame_chunk_is_one_report_of_set_code() {
    let code = pattern(200);
    let reports = set_code(&code);
    assert_eq!(reports.len(), 4);
    for (index, report) in reports.iter().enumerate() {
        assert_eq!(&frame_chunk(&code, index), report);
    }
    assert_eq!(frame_chunk(&code, 3).len(), 8 + 32);
}

#[test]
fn the_trigger_is_the_fixed_report() {
    let expected: [u8; 64] = [
        0x35, 0x94, 0x70, 0x00, 0x2a, 0x00, 0x00, 0x11, 0x00, 0x34, 0x00, 0x10, 0x00, 0x12, 0x00,
        0x11, 0x00, 0x33, 0x00, 0x11, 0x00, 0x12, 0x00, 0x11, 0x00, 0x12, 0x00, 0x10, 0x00, 0x13,
        0x00, 0x11, 0x00, 0x34, 0x00, 0x10, 0x00, 0x34, 0x00, 0x10, 0x00, 0x12, 0x00, 0x11, 0x00,
        0x12, 0x00, 0x11, 0x00, 0x34, 0x00, 0x10, 0x00, 0x12, 0x00, 0x11, 0x00, 0x12, 0x00, 0x11,
        0x0b, 0x1c, 0x00, 0x00,
    ];
    assert_eq!(TRIGGER, expected);
    assert_eq!(send_req(), expected.to_vec());
    assert_eq!(send_req().len(), 64);
}

#[test]
fn protocol_constants() {
    assert_eq!(CHUNK_PAYLOAD, 56);
    assert_eq!(SET_CODE, 0x34);
    assert_eq!(FOOTER, [0x00, 0x00]);
}
