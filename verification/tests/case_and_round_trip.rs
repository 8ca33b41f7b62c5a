use myhex::{decode, decode_fixed};

fn to_hex(bytes: &[u8]) -> String {
    let mut out = String::new();
    for b in bytes {
        out.push_str(&format!("{:02x}", b));
    }
    out
}

#[test]
fn case_of_the_letters_does_not_matter() {
    let inputs = ["abcdef", "ABCDEF", "AbCdEf", "0a1B2c3D4e5F", "deadBEEF", "0123456789", ""];
    for input in inputs {
        let plain = decode(input).unwrap();
        assert_eq!(plain.len(), input.len() / 2);
        assert_eq!(decode(&input.to_lowercase()).unwrap(), plain);
        assert_eq!(decode(&input.to_uppercase()).unwrap(), plain);
    }
}

#[test]
fn every_case_variant_of_a_word_decodes_alike() {
    let word = "cafe";
    let expected = vec![0xca, 0xfe];
    for mask in 0u32..16 {
        let variant: String = word
            .chars()
            .enumerate()
            .map(|(i, c)| if mask & (1 << i) != 0 { c.to_ascii_uppercase() } else { c })
            .collect();
        assert_eq!(decode(&variant), Ok(expected.clone()));
        assert_eq!(decode_fixed::<2>(&variant), Ok([0xca, 0xfe]));
    }
}

#[test]
fn case_variants_fail_at_the_same_place() {
    let lower = decode("ab0g").unwrap_err();
    let upper = decode("AB0G").unwrap_err();
    assert_eq!(lower, myhex::HexError::InvalidCharacter { index: 3, byte: b'g' });
    assert_eq!(upper, myhex::HexError::InvalidCharacter { index: 3, byte: b'G' });
}

#[test]
fn decoding_inverts_lower_case_encoding() {
    let samples: [&[u8]; 5] = [&[], &[0], &[255], &[1, 10, 255], &[0x12, 0x34, 0x56, 0x78, 0x9a, 0xbc, 0xde, 0xf0]];
    for bytes in samples {
        assert_eq!(decode(&to_hex(bytes)), Ok(bytes.to_vec()));
    }
    let all: Vec<u8> = (0u8..=255).collect();
    assert_eq!(decode(&to_hex(&all)), Ok(all));
}

#[test]
fn decode_encode_decode_is_decode() {
    let inputs = ["010aff", "ABCD", "AbcD", "", "00ff00FF", "0123456789abcdefABCDEF"];
    for input in inputs {
        let first = decode(input).unwrap();
        let canonical = to_hex(&first);
        assert_eq!(canonical, input.to_lowercase());
        assert_eq!(decode(&canonical).unwrap(), first);
    }
}
