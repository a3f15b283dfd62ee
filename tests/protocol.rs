use portalbox::protocol::{
    decode_hello, decode_message, encode_hello, encode_message, FrameError,
    ProxyConnectionMessage, AUTH_TOKEN_LENGTH, HELLO_LEN, PROTOCOL_VERSION,
};

const ALL: [ProxyConnectionMessage; 7] = [
    ProxyConnectionMessage::AuthOk,
    ProxyConnectionMessage::AuthFailed,
    ProxyConnectionMessage::Ping,
    ProxyConnectionMessage::Pong,
    ProxyConnectionMessage::DataHome,
    ProxyConnectionMessage::DataVscode,
    ProxyConnectionMessage::DataSsh,
];

fn token() -> String {
    "abcdefghij".repeat(8)
}

#[test]
fn every_message_round_trips() {
    for m in ALL {
        let frame = encode_message(m);
        assert_eq!(frame.len(), 2);
        assert_eq!(decode_message(&frame), Ok(m));
    }
}

#[test]
fn message_codes_are_big_endian() {
    assert_eq!(encode_message(ProxyConnectionMessage::AuthOk), vec![0x11, 0x11]);
    assert_eq!(encode_message(ProxyConnectionMessage::AuthFailed), vec![0x22, 0x22]);
    assert_eq!(encode_message(ProxyConnectionMessage::Ping), vec![0x33, 0x33]);
    assert_eq!(encode_message(ProxyConnectionMessage::Pong), vec![0x44, 0x44]);
    assert_eq!(encode_message(ProxyConnectionMessage::DataHome), vec![0x55, 0x55]);
    assert_eq!(encode_message(ProxyConnectionMessage::DataVscode), vec![0x55, 0x56]);
    assert_eq!(encode_message(ProxyConnectionMessage::DataSsh), vec![0x55, 0x57]);
    assert_eq!(ProxyConnectionMessage::DataVscode.code(), 0x5556);
}

#[test]
fn unknown_codes_are_rejected() {
    assert_eq!(decode_message(&[0x00, 0x00]), Err(FrameError::UnknownFrame(0)));
    assert_eq!(decode_message(&[0x55, 0x58]), Err(FrameError::UnknownFrame(0x5558)));
    assert_eq!(decode_message(&[0x11, 0x12]), Err(FrameError::UnknownFrame(0x1112)));
    assert_eq!(decode_message(&[0xff, 0xff]), Err(FrameError::UnknownFrame(0xffff)));
    let mut accepted = 0u32;
    for hi in 0..=255u8 {
        for lo in 0..=255u8 {
            let code = (hi as u16) * 256 + lo as u16;
            match decode_message(&[hi, lo]) {
                Ok(m) => {
                    accepted += 1;
                    assert_eq!(m.code(), code);
                }
                Err(e) => assert_eq!(e, FrameError::UnknownFrame(code)),
            }
        }
    }
    assert_eq!(accepted, 7);
}

#[test]
fn message_frames_of_other_widths_are_truncated() {
    assert_eq!(decode_message(&[]), Err(FrameError::Truncated));
    assert_eq!(decode_message(&[0x11]), Err(FrameError::Truncated));
    assert_eq!(decode_message(&[0x11, 0x11, 0x00]), Err(FrameError::Truncated));
}

#[test]
fn hello_frame_layout() {
    let tok = token();
    let frame = encode_hello(&tok);
    assert_eq!(frame.len(), HELLO_LEN);
    assert_eq!(&frame[..2], &[0x00, 0x01]);
    assert_eq!(&frame[2..], tok.as_bytes());
}

#[test]
fn hello_round_trips() {
    let tok = token();
    assert_eq!(tok.len(), AUTH_TOKEN_LENGTH);
    let hello = decode_hello(&encode_hello(&tok)).unwrap();
    assert_eq!(hello.version, PROTOCOL_VERSION);
    assert_eq!(hello.connection_token, tok);
}

#[test]
fn hello_with_invalid_utf8_token_is_a_bad_frame() {
    let mut frame = encode_hello(&token());
    frame[10] = 0xff;
    assert!(matches!(decode_hello(&frame), Err(FrameError::BadFrame)));
}

#[test]
fn hello_of_wrong_width_is_truncated() {
    let frame = encode_hello("short");
    assert_eq!(frame, vec![0, 1, b's', b'h', b'o', b'r', b't']);
    assert!(matches!(decode_hello(&frame), Err(FrameError::Truncated)));
}

#[test]
fn hello_version_is_read_big_endian() {
    let mut frame = encode_hello(&token());
    frame[0] = 0x01;
    frame[1] = 0x02;
    let hello = decode_hello(&frame).unwrap();
    assert_eq!(hello.version, 0x0102);
}
