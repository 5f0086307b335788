use adir01p::encoder::{encode, parse_digit, LEADER, OFF, ON, TRAILER};
use adir01p::error::Error;

fn join(parts: &[&[u8]]) -> Vec<u8> {
    let mut bytes = Vec::new();
    for part in parts {
        bytes.extend_from_slice(part);
    }
    bytes
}

#[test]
fn empty_input_is_leader_and_trailer() {
    let code = encode("").unwrap();
    assert_eq!(code, vec![0x00, 0x88, 0x00, 0x44, 0x00, 0x11, 0x0b, 0x1c]);
    assert_eq!(code.len(), 8);
}

#[test]
fn digit_zero_is_four_on_pulses() {
    let on: [u8; 4] = [0x00, 0x11, 0x00, 0x11];
    assert_eq!(ON, on);
    assert_eq!(encode("0").unwrap(), join(&[&LEADER, &on, &on, &on, &on, &TRAILER]));
}

#[test]
fn digit_f_is_four_off_pulses() {
    let off: [u8; 4] = [0x00, 0x11, 0x00, 0x33];
    assert_eq!(OFF, off);
    let expected = join(&[&LEADER, &off, &off, &off, &off, &TRAILER]);
    assert_eq!(encode("f").unwrap(), expected);
    assert_eq!(encode("F").unwrap(), expected);
}

#[test]
fn digit_one_is_on_on_on_off() {
    let expected: Vec<u8> = vec![
        0x00, 0x88, 0x00, 0x44, 0x00, 0x11, 0x00, 0x11, 0x00, 0x11, 0x00, 0x11, 0x00, 0x11, 0x00,
        0x11, 0x00, 0x11, 0x00, 0x33, 0x00, 0x11, 0x0b, 0x1c,
    ];
    assert_eq!(encode("1").unwrap(), expected);
}

#[test]
fn every_digit_sends_its_complement_high_bit_first() {
    let digits = "0123456789abcdef";
    for (value, digit) in digits.chars().enumerate() {
        let code = encode(&digit.to_string()).unwrap();
        let mut expected = LEADER.to_vec();
        for shift in [3, 2, 1, 0] {
            let bit = ((15 - value) >> shift) & 1;
            expected.extend_from_slice(if bit == 1 { &ON } else { &OFF });
        }
        expected.extend_from_slice(&TRAILER);
        assert_eq!(code, expected, "digit {}", digit);
    }
}

#[test]
fn digits_are_encoded_in_input_order() {
    let code = encode("a5").unwrap();
    // a = 1010, sent as 0101; 5 = 0101, sent as 1010
    let expected = join(&[&LEADER, &OFF, &ON, &OFF, &ON, &ON, &OFF, &ON, &OFF, &TRAILER]);
    assert_eq!(code, expected);
}

#[test]
fn upper_and_lower_case_encode_alike() {
    assert_eq!(encode("abcdef").unwrap(), encode("ABCDEF").unwrap());
    assert_eq!(encode("1aB9").unwrap(), encode("1Ab9").unwrap());
}

#[test]
fn length_is_eight_plus_sixteen_per_digit() {
    let mut source = String::new();
    for count in 0..40 {
        let code = encode(&source).unwrap();
        assert_eq!(code.len(), 8 + 16 * count);
        assert_eq!(code.len() % 4, 0);
        source.push_str("7");
    }
}

#[test]
fn leader_and_trailer_frame_every_pattern() {
    let code = encode("c0ffee").unwrap();
    assert_eq!(&code[..4], &LEADER);
    assert_eq!(&code[code.len() - 4..], &TRAILER);
}

#[test]
fn other_characters_are_refused() {
    for source in ["g", "G", "z", " ", "1 ", " 1", "0x1f", "+", "-", "+1", "-1", "1.0", "12g4", "\n"] {
        assert_eq!(encode(source), Err(Error::Parse), "source {:?}", source);
    }
}

#[test]
fn characters_beyond_ascii_are_refused() {
    for source in ["é", "１", "٣", "1é", "\u{0}", "ａ"] {
        assert_eq!(encode(source), Err(Error::Parse), "source {:?}", source);
    }
}

#[test]
fn a_bad_character_anywhere_refuses_the_whole_input() {
    assert_eq!(encode("gfff"), Err(Error::Parse));
    assert_eq!(encode("ffgf"), Err(Error::Parse));
    assert_eq!(encode("fffg"), Err(Error::Parse));
}

#[test]
fn parse_digit_knows_the_twenty_two_digits() {
    let mut known = 0;
    for code in 0u32..0x250 {
        let c = char::from_u32(code).unwrap();
        let expected = c.to_digit(16).map(|value| value as u8);
        assert_eq!(parse_digit(c), expected, "char {:?}", c);
        if expected.is_some() {
            known += 1;
        }
    }
    assert_eq!(known, 22);
    assert_eq!(parse_digit('0'), Some(0));
    assert_eq!(parse_digit('9'), Some(9));
    assert_eq!(parse_digit('a'), Some(10));
    assert_eq!(parse_digit('F'), Some(15));
    assert_eq!(parse_digit('/'), None);
    assert_eq!(parse_digit(':'), None);
    assert_eq!(parse_digit('@'), None);
    assert_eq!(parse_digit('G'), None);
    assert_eq!(parse_digit('`'), None);
    assert_eq!(parse_digit('g'), None);
}
