use btc_primitives::{bytes_to_hex, decode_hex, hex_to_bytes, DecodeError};

#[test]
fn encode_writes_lowercase_pairs() {
    assert_eq!(bytes_to_hex(&[0x00, 0x0f, 0xa0, 0xff]), "000fa0ff");
    assert_eq!(bytes_to_hex(&[0xAB, 0xCD, 0xEF]), "abcdef");
    assert_eq!(bytes_to_hex(&[1, 2, 3, 15, 16]), "0102030f10");
}

#[test]
fn encode_of_nothing_is_empty() {
    assert_eq!(bytes_to_hex(&[]), "");
}

#[test]
fn decode_of_nothing_is_empty() {
    assert_eq!(decode_hex(""), Ok(vec![]));
    assert_eq!(hex_to_bytes(""), Ok(vec![]));
}

#[test]
fn decode_reads_either_case() {
    assert_eq!(decode_hex("f9b4ca"), Ok(vec![0xf9, 0xb4, 0xca]));
    assert_eq!(decode_hex("F9B4CA"), Ok(vec![0xf9, 0xb4, 0xca]));
    assert_eq!(decode_hex("f9B4Ca"), Ok(vec![0xf9, 0xb4, 0xca]));
    assert_eq!(hex_to_bytes("0102030F10"), Ok(vec![1, 2, 3, 15, 16]));
}

#[test]
fn decode_undoes_encode_for_every_byte() {
    let all: Vec<u8> = (0..=255u8).collect();
    let text = bytes_to_hex(&all);
    assert_eq!(text.len(), 512);
    assert_eq!(decode_hex(&text), Ok(all.clone()));
    assert_eq!(hex_to_bytes(&text), Ok(all));
}

#[test]
fn decode_undoes_encode_on_samples() {
    let samples: [&[u8]; 5] = [&[], &[0x00], &[0xff], &[0x76, 0xa9, 0x14], &[0xde, 0xad, 0xbe, 0xef, 0x01]];
    for bytes in samples {
        assert_eq!(decode_hex(&bytes_to_hex(bytes)), Ok(bytes.to_vec()));
    }
}

#[test]
fn decoded_length_is_half_the_text() {
    for text in ["", "00", "abcd", "0123456789abcdefABCDEF"] {
        let bytes = decode_hex(text).unwrap();
        assert_eq!(bytes.len(), text.len() / 2);
    }
}

#[test]
fn encode_after_decode_lowers_the_case() {
    let bytes = hex_to_bytes("DeadBEEF00aF").unwrap();
    assert_eq!(bytes_to_hex(&bytes), "deadbeef00af");
}

#[test]
fn decode_refuses_odd_length() {
    assert_eq!(decode_hex("abc"), Err(String::from("Could not decode hex string")));
    assert_eq!(hex_to_bytes("abc"), Err(DecodeError::OddLength));
    assert_eq!(hex_to_bytes("1"), Err(DecodeError::OddLength));
}

#[test]
fn decode_refuses_other_characters() {
    assert_eq!(decode_hex("zz"), Err(String::from("Could not decode hex string")));
    assert_eq!(hex_to_bytes("zz"), Err(DecodeError::InvalidHexCharacter { c: 'z', index: 0 }));
    assert_eq!(hex_to_bytes("12g4"), Err(DecodeError::InvalidHexCharacter { c: 'g', index: 2 }));
    assert_eq!(hex_to_bytes("123 "), Err(DecodeError::InvalidHexCharacter { c: ' ', index: 3 }));
    assert_eq!(hex_to_bytes("0x12"), Err(DecodeError::InvalidHexCharacter { c: 'x', index: 1 }));
}

#[test]
fn odd_length_comes_before_bad_characters() {
    assert_eq!(hex_to_bytes("zzz"), Err(DecodeError::OddLength));
    assert_eq!(hex_to_bytes("foo"), Err(DecodeError::OddLength));
}

#[test]
fn decode_refuses_text_beyond_ascii() {
    // Two bytes in UTF-8: an even length, and a first byte that is no digit.
    assert_eq!(hex_to_bytes("é"), Err(DecodeError::InvalidHexCharacter { c: 'Ã', index: 0 }));
    // Three bytes in all.
    assert_eq!(hex_to_bytes("aé"), Err(DecodeError::OddLength));
    assert_eq!(hex_to_bytes("abé"), Err(DecodeError::InvalidHexCharacter { c: 'Ã', index: 2 }));
    assert!(decode_hex("éé").is_err());
}

fn as_decode_error(error: hex::FromHexError) -> Option<DecodeError> {
    match error {
        hex::FromHexError::OddLength => Some(DecodeError::OddLength),
        hex::FromHexError::InvalidHexCharacter { c, index } => {
            Some(DecodeError::InvalidHexCharacter { c, index })
        }
        hex::FromHexError::InvalidStringLength => None,
    }
}

#[test]
fn faults_are_those_the_hex_crate_names() {
    let texts = [
        "", "0", "00", "abc", "zz", "0g", "g0", "12345", "aBcDeF", "ab cd", "é", "aé", "abé", "ééé", "日本", "ff\n",
        "+1", "-1", "0x", "00zz00", "00000g",
    ];
    for text in texts {
        let ours = hex_to_bytes(text);
        match hex::decode(text) {
            Ok(bytes) => assert_eq!(ours, Ok(bytes)),
            Err(error) => assert_eq!(ours.map_err(Some), Err(as_decode_error(error))),
        }
        assert_eq!(decode_hex(text).ok(), hex::decode(text).ok());
    }
}

#[test]
fn encoding_is_that_of_the_hex_crate() {
    let samples: [&[u8]; 4] = [&[], &[0x00, 0x01], &[0x9a, 0xbc, 0xde, 0xf0], b"Hello world!"];
    for bytes in samples {
        assert_eq!(bytes_to_hex(bytes), hex::encode(bytes));
    }
    assert_eq!(bytes_to_hex(b"Hello world!"), "48656c6c6f20776f726c6421");
}
