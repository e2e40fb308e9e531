use mmml_player::mmml_data::{get_mmml_data, terminate, InvalidData, MmmlData};
use mmml_player::mmml_engine::MMMLSynthesizer;

fn binary(data: Vec<u8>) -> Option<Vec<u8>> {
    match get_mmml_data(data) {
        Ok(MmmlData::Binary(bytes)) => Some(bytes),
        _ => None,
    }
}

fn source(data: Vec<u8>) -> Option<String> {
    match get_mmml_data(data) {
        Ok(MmmlData::Source(text)) => Some(text),
        _ => None,
    }
}

#[test]
fn compiled_data_gets_its_terminator() {
    let data = vec![0, 8, 0, 8, 0, 8, 0, 8, 0xFF];
    assert_eq!(binary(data), Some(vec![0, 8, 0, 8, 0, 8, 0, 8, 0xFF, 0x00]));
    assert_eq!(binary(vec![0xFF]), Some(vec![0xFF, 0x00]));
}

#[test]
fn compiled_data_need_not_be_text() {
    // Valid UTF-8 or not, a trailing channel end decides.
    assert_eq!(binary(vec![0x80, 0xC0, 0xFF]), Some(vec![0x80, 0xC0, 0xFF, 0x00]));
}

#[test]
fn text_is_source() {
    assert_eq!(source(b"@ o3 cdefgab".to_vec()), Some(String::from("@ o3 cdefgab")));
    assert_eq!(source("µMML ♪".as_bytes().to_vec()), Some(String::from("µMML ♪")));
    assert_eq!(source(Vec::new()), Some(String::new()));
}

#[test]
fn other_data_is_invalid() {
    assert!(matches!(get_mmml_data(vec![0xC0, 0x00]), Err(InvalidData)));
    assert!(matches!(get_mmml_data(vec![b'a', 0xFF, b'b']), Err(InvalidData)));
    assert!(matches!(get_mmml_data(vec![0xE2, 0x82]), Err(InvalidData)));
}

#[test]
fn terminate_appends_one_zero() {
    assert_eq!(terminate(Vec::new()), vec![0x00]);
    assert_eq!(terminate(vec![1, 2, 0xFF]), vec![1, 2, 0xFF, 0x00]);
}

#[test]
fn compiled_file_plays() {
    // A file as it lies on disk: no terminator behind the last channel end.
    let file = vec![0, 8, 0, 10, 0, 11, 0, 12, 0xC7, 0xFF, 0xFF, 0xFF, 0xFF];
    let data = binary(file.clone()).unwrap();
    assert_eq!(MMMLSynthesizer::new().generate_mmml(&data).map(|s| s.len()), Ok(8));
    // Played as it is, the last channel end lacks its argument byte.
    assert!(MMMLSynthesizer::new().generate_mmml(&file).is_err());
}
