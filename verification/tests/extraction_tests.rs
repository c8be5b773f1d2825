use lurk::protocol::extraction::{ExtractNode, Extractor, LURK_FIXED_STRING_SIZE};
use lurk::protocol::stream::ByteStream;

#[test]
fn test_byte_chunk_extraction() {
    let data = vec![0u8, 0u8, 0u8, 0u8];
    let mut readable = ByteStream::new(data.clone());
    let extractor = Extractor::create(vec![ExtractNode::ByteChunk(4)]);
    let data_result = extractor.extract_byte_chunk(&mut readable, 4);
    assert!(data_result.is_ok());
    assert_eq!(data_result.unwrap().len(), data.len());
}

#[test]
fn test_fixed_string_chunk_extraction() {
    let data = vec![0u8; LURK_FIXED_STRING_SIZE as usize];
    let mut readable = ByteStream::new(data.clone());
    let extractor = Extractor::create(vec![ExtractNode::FixedStringChunk]);
    let data_result = extractor.extract_fixed_string_chunk(&mut readable);
    assert!(data_result.is_ok());
    assert_eq!(data_result.unwrap().len(), data.len());
}

#[test]
fn test_var_string_chunk_extraction() {
    let data = vec![4u8, 0u8, 0u8, 0u8, 0u8, 0u8];
    let mut readable = ByteStream::new(data.clone());
    let extractor = Extractor::create(vec![ExtractNode::VarStringChunk]);
    let data_result = extractor.extract_var_string_chunk(&mut readable);
    assert!(data_result.is_ok());
    assert_eq!(data_result.unwrap().len(), data.len());
}

#[test]
fn test_fractured_var_string_chunk_extraction() {
    let data = vec![4u8, 0, 0, 0, 0, 0, 0, 0, 0, 0];
    let mut readable = ByteStream::new(data.clone());
    let extractor = Extractor::create(vec![ExtractNode::FracturedVarString(4)]);
    let data_result = extractor.extract_fractured_var_string_chunk(&mut readable, 4);
    assert!(data_result.is_ok());
    assert_eq!(data_result.unwrap().len(), data.len());
}

#[test]
fn extraction_test_message_extraction() {
    let mut data = vec![4u8, 0u8];
    data.extend(vec![0u8; 68]);

    let mut readable = ByteStream::new(data.clone());
    let extractor = Extractor::message();
    let data_result = extractor.extract(&mut readable);
    assert!(data_result.is_ok());
    assert_eq!(data_result.unwrap().len(), data.len());
}

#[test]
fn extraction_test_change_room_extraction() {
    let data = vec![0u8; 2];

    let mut readable = ByteStream::new(data.clone());
    let extractor = Extractor::change_room();
    let data_result = extractor.extract(&mut readable);
    assert!(data_result.is_ok());
    assert_eq!(data_result.unwrap().len(), data.len());
}

#[test]
fn extraction_test_fight_extraction() {
    let data = vec![];

    let mut readable = ByteStream::new(data.clone());
    let extractor = Extractor::fight();
    let data_result = extractor.extract(&mut readable);
    assert!(data_result.is_ok());
    assert_eq!(data_result.unwrap().len(), data.len());
}

#[test]
fn extraction_test_pvp_fight_extraction() {
    let data = vec![0u8; LURK_FIXED_STRING_SIZE as usize];

    let mut readable = ByteStream::new(data.clone());
    let extractor = Extractor::pvp_fight();
    let data_result = extractor.extract(&mut readable);
    assert!(data_result.is_ok());
    assert_eq!(data_result.unwrap().len(), data.len());
}

#[test]
fn extraction_test_loot_extraction() {
    let data = vec![0u8; LURK_FIXED_STRING_SIZE as usize];

    let mut readable = ByteStream::new(data.clone());
    let extractor = Extractor::loot();
    let data_result = extractor.extract(&mut readable);
    assert!(data_result.is_ok());
    assert_eq!(data_result.unwrap().len(), data.len());
}

#[test]
fn extraction_test_start_extraction() {
    let data = vec![];

    let mut readable = ByteStream::new(data.clone());
    let extractor = Extractor::start();
    let data_result = extractor.extract(&mut readable);
    assert!(data_result.is_ok());
    assert_eq!(data_result.unwrap().len(), data.len());
}

#[test]
fn extraction_test_error_extraction() {
    let data = vec![0u8, 4u8, 0u8, 0u8, 0u8, 0u8, 0u8];

    let mut readable = ByteStream::new(data.clone());
    let extractor = Extractor::error();
    let data_result = extractor.extract(&mut readable);
    assert!(data_result.is_ok());
    assert_eq!(data_result.unwrap().len(), data.len());
}

#[test]
fn extraction_test_accept_extraction() {
    let data = vec![0u8];

    let mut readable = ByteStream::new(data.clone());
    let extractor = Extractor::accept();
    let data_result = extractor.extract(&mut readable);
    assert!(data_result.is_ok());
    assert_eq!(data_result.unwrap().len(), data.len());
}

#[test]
fn extraction_test_room_extraction() {
    let mut data = vec![0u8; 34];
    data.extend(vec![4u8, 0u8, 0u8, 0u8, 0u8, 0u8]);

    let mut readable = ByteStream::new(data.clone());
    let extractor = Extractor::room();
    let data_result = extractor.extract(&mut readable);
    assert!(data_result.is_ok());
    assert_eq!(data_result.unwrap().len(), data.len());
}

#[test]
fn extraction_test_character_extraction() {
    let mut data = vec![0u8; 45];
    data.extend(vec![4u8, 0u8, 0u8, 0u8, 0u8, 0u8]);

    let mut readable = ByteStream::new(data.clone());
    let extractor = Extractor::character();
    let data_result = extractor.extract(&mut readable);
    assert!(data_result.is_ok());
    assert_eq!(data_result.unwrap().len(), data.len());
}

#[test]
fn extraction_test_game_extraction() {
    let mut data = vec![0u8; 4];
    data.extend(vec![4u8, 0u8, 0u8, 0u8, 0u8, 0u8]);

    let mut readable = ByteStream::new(data.clone());
    let extractor = Extractor::game();
    let data_result = extractor.extract(&mut readable);
    assert!(data_result.is_ok());
    assert_eq!(data_result.unwrap().len(), data.len());
}

#[test]
fn extraction_test_leave_extraction() {
    let data = vec![];

    let mut readable = ByteStream::new(data.clone());
    let extractor = Extractor::leave();
    let data_result = extractor.extract(&mut readable);
    assert!(data_result.is_ok());
    assert_eq!(data_result.unwrap().len(), data.len());
}

#[test]
fn extraction_test_connection_extraction() {
    let mut data = vec![0u8; 34];
    data.extend(vec![4u8, 0u8, 0u8, 0u8, 0u8, 0u8]);

    let mut readable = ByteStream::new(data.clone());
    let extractor = Extractor::connection();
    let data_result = extractor.extract(&mut readable);
    assert!(data_result.is_ok());
    assert_eq!(data_result.unwrap().len(), data.len());
}

#[test]
fn extraction_fails_on_short_stream() {
    let data = vec![0u8; 20];
    let mut readable = ByteStream::new(data);
    let extractor = Extractor::room();
    assert!(extractor.extract(&mut readable).is_err());
}
