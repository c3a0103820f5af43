use pricklybird::crc::crc8_table;
use pricklybird::{
    bytes_to_words, calculate_crc8, convert_from_pricklybird, convert_to_pricklybird,
    words_to_bytes, DecodeError,
};

const TEST_DATA_SEED: u128 = 1;
const TEST_DATA_BYTES: usize = 4096;

/// Pseudorandom test data from the Lehmer64 generator.
fn generate_test_data(seed: u128) -> Vec<u8> {
    let multiplier: u128 = 0xDA942042E4DD58B5;
    let mut state = seed;
    for _ in 0..128 {
        state = state.wrapping_mul(multiplier);
    }
    let mut result = vec![0_u8; TEST_DATA_BYTES];
    let mut j: usize = 0;
    while j < TEST_DATA_BYTES {
        state = state.wrapping_mul(multiplier);
        let random_val = (state >> 64) as u64;
        for k in 0..8 {
            result[j + k] = (random_val >> (8 * k)) as u8;
        }
        j += 8;
    }
    result
}

fn test_data() -> Vec<u8> {
    generate_test_data(TEST_DATA_SEED)
}

#[test]
fn test_vectors() {
    let test_vectors = vec![
        (vec![0xDE_u8, 0xAD, 0xBE, 0xEF], "turf-port-rust-warn-void"),
        (vec![0x42_u8, 0x43], "flea-flux-full"),
        (vec![0x12_u8, 0x34, 0x56, 0x78, 0x90], "blob-eggs-hair-king-meta-yell"),
        (vec![0_u8; 5], "acid-acid-acid-acid-acid-acid"),
        (vec![0xFF_u8; 5], "zone-zone-zone-zone-zone-sand"),
    ];
    for (data, words) in test_vectors {
        assert_eq!(words, convert_to_pricklybird(&data), "Failed to convert {:?} test vector to pricklybird.", data);
        assert_eq!(data, convert_from_pricklybird(words).unwrap(), "Failed to convert {} test vector to bytes.", words);
    }
}

#[test]
fn test_simple_conversion() {
    let data = test_data();
    let coded_words = convert_to_pricklybird(&data);
    let decoded_data = convert_from_pricklybird(&coded_words).unwrap();
    assert_eq!(data, decoded_data, "Converter did not correctly encode or decode data.");
}

#[test]
fn test_uppercase() {
    assert_eq!(
        vec![0xDE_u8, 0xAD, 0xBE, 0xEF],
        convert_from_pricklybird("TUrF-Port-RUST-warn-vOid").unwrap(),
        "Converter did not correctly decode uppercase data."
    );
}

#[test]
fn test_error_detection_bit_flip() {
    let data = test_data();
    let coded_words = convert_to_pricklybird(&data);
    let mut corrupt_data = data.clone();
    corrupt_data[0] ^= 1;
    let incorrect_word = String::from_utf8(bytes_to_words(&corrupt_data[0..1])[0].to_vec()).unwrap();
    let incorrect_coded_words = format!("{}{}", &incorrect_word[..4], &coded_words[4..]);
    assert!(
        convert_from_pricklybird(&incorrect_coded_words).is_err(),
        "Converter did not detect error in corrupted input."
    );
}

#[test]
fn test_error_detection_adjacent_swap() {
    let data = test_data();
    let coded_words = convert_to_pricklybird(&data);
    let mut word_vec: Vec<&str> = coded_words.split('-').collect();
    word_vec.swap(0, 1);
    let swapped_coded_words = word_vec.join("-");
    assert!(
        matches!(convert_from_pricklybird(&swapped_coded_words), Err(DecodeError::CRCError)),
        "Converter did not detect error caused by word swap."
    );
}

#[test]
fn test_whitespace_trim() {
    assert_eq!(
        vec![0x42_u8, 0x43],
        convert_from_pricklybird(" \t\n\r\x0b\x0c flea-flux-full \t\n\r\x0b\x0c ").unwrap()
    );
}

#[test]
fn test_unusual_input() {
    let edge_cases = vec![
        ("", "empty input"),
        ("orca", "input to short"),
        ("a®¿a-orca", "invalid characters in input"),
        ("gäsp-risk-king-orca-husk", "invalid characters in input"),
        ("-risk-king-orca-husk", "incorrectly formatted input"),
        ("gasp-rock-king-orca-husk", "incorrect word in input"),
        ("flea- \t \t-full", "whitespace in input"),
        ("flea-aaa\0-full", "null bytes in input"),
        ("flea-\0aaa-full", "null bytes in input"),
        ("flea-\x7faaa-full", "ASCII control character in input"),
        ("flea-aaa\x7f-full", "ASCII control character in input"),
        ("zzzz-king", "incorrect word in input"),
    ];
    for (edge_case_input, error_reason) in edge_cases {
        assert!(
            convert_from_pricklybird(edge_case_input).is_err(),
            "Converter did not return error for: {} ({})",
            error_reason,
            edge_case_input
        );
    }
}

#[test]
fn lib_test_empty_input() {
    assert_eq!("", convert_to_pricklybird(&[]));
    assert!(bytes_to_words(&[]).is_empty());
    assert!(words_to_bytes(&Vec::<&str>::new()).unwrap().is_empty());
}

#[test]
fn crc8_test_empty_input() {
    let test_data: &[u8] = &[];
    assert_eq!(0, calculate_crc8(test_data), "CRC-8 of empty data should be 0.");
}

#[test]
fn test_table_lookup() {
    let test_data = &[0x42_u8];
    let result = calculate_crc8(test_data);
    let expected = crc8_table()[test_data[0] as usize];
    assert_eq!(expected, result, "CRC-8 of single byte should match table value.");
}

#[test]
fn test_with_appended_crc() {
    let mut test_data = b"Test data".to_vec();
    let crc_value = calculate_crc8(&test_data);
    test_data.push(crc_value);
    assert_eq!(0, calculate_crc8(&test_data), "Data with appended correct CRC-8 should result in remainder 0.");
}

#[test]
fn check_value_of_crc() {
    assert_eq!(0x37, calculate_crc8(b"123456789"));
}

#[test]
fn words_to_bytes_mixed_case_and_errors() {
    assert_eq!(vec![0x42_u8, 0x43], words_to_bytes(&vec!["FLEA", "flux"]).unwrap());
    assert!(matches!(words_to_bytes(&vec!["flea", "rock"]), Err(DecodeError::General(_))));
    assert!(matches!(words_to_bytes(&vec!["fle"]), Err(DecodeError::General(_))));
}

#[test]
fn bytes_to_words_exact() {
    assert_eq!(vec![[102_u8, 108, 101, 97], [102, 108, 117, 120]], bytes_to_words(&[0x42, 0x43]));
}

#[test]
fn decode_errors_by_kind() {
    assert!(matches!(convert_from_pricklybird("orca"), Err(DecodeError::General(_))));
    assert!(matches!(convert_from_pricklybird("flea-flux-acid"), Err(DecodeError::CRCError)));
    assert!(matches!(convert_from_pricklybird("flea-flux-full-"), Err(DecodeError::General(_))));
}

#[test]
fn encoding_length() {
    let data = [1_u8, 2, 3];
    assert_eq!(4 * 4 + 3, convert_to_pricklybird(&data).len());
}
