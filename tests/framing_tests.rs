use worker::framing::{decode_frame, encode_frame, FrameDecode, MAX_FRAME_SIZE};

#[test]
fn frame_carries_big_endian_length() {
    let f = encode_frame(b"hello").unwrap();
    assert_eq!(f, vec![0, 0, 0, 5, b'h', b'e', b'l', b'l', b'o']);
}

#[test]
fn frames_read_back_in_order() {
    let mut stream = Vec::new();
    for p in [&b"one"[..], &b""[..], &b"three"[..]] {
        stream.extend(encode_frame(p).unwrap());
    }
    let mut got = Vec::new();
    let mut rest = &stream[..];
    while !rest.is_empty() {
        match decode_frame(rest) {
            FrameDecode::Frame { payload, consumed } => {
                got.push(payload);
                rest = &rest[consumed..];
            }
            other => panic!("unexpected {:?}", other),
        }
    }
    assert_eq!(got, vec![b"one".to_vec(), b"".to_vec(), b"three".to_vec()]);
}

#[test]
fn partial_frames_need_more() {
    assert_eq!(decode_frame(&[0, 0]), FrameDecode::Incomplete);
    assert_eq!(decode_frame(&[0, 0, 0, 3, 1]), FrameDecode::Incomplete);
}

#[test]
fn oversize_frame_is_refused() {
    let n = MAX_FRAME_SIZE + 1;
    let header = n.to_be_bytes();
    assert_eq!(decode_frame(&header), FrameDecode::Oversize { length: n });
    let ok = MAX_FRAME_SIZE.to_be_bytes();
    assert_eq!(decode_frame(&ok), FrameDecode::Incomplete);
}
