use lurk::protocol::primitive_parse::{parse_i16l, parse_string, parse_u16l, parse_var_string,
    ReadBufferCursor};

//////////////////////////////////////////////////////////////////////////////
#[test]
fn test_cursor_u16l_read() {
    let data = [0xf8u8, 0xffu8];
    let mut cursor = ReadBufferCursor::new(&data);

    assert_eq!(cursor.parse_u16l().unwrap(), 0xff_f8_u16);
}

#[test]
fn test_cursor_i16l_read() {
    let data = [0xff, 0x00];
    let mut cursor = ReadBufferCursor::new(&data);

    assert_eq!(cursor.parse_i16l().unwrap(), 0x00_ff_i16);
}

#[test]
fn test_cursor_var_string_read() {
    let data = [0x03, 0x00, 'c' as u8, 'a' as u8, 't' as u8];
    let mut cursor = ReadBufferCursor::new(&data);

    assert_eq!(cursor.parse_var_string().unwrap(), String::from("cat"));
}

#[test]
fn test_cursor_string_read_null_terminated() {
    let data = ['c' as u8, 'a' as u8, 't' as u8, '\0' as u8];
    let mut cursor = ReadBufferCursor::new(&data);

    assert_eq!(cursor.parse_string(4).unwrap(), String::from("cat"));
}

#[test]
fn test_cursor_string_read_full() {
    let data = ['c' as u8, 'a' as u8, 't' as u8];
    let mut cursor = ReadBufferCursor::new(&data);

    assert_eq!(cursor.parse_string(3).unwrap(), String::from("cat"));
}

//////////////////////////////////////////////////////////////////////////////

#[test]
fn test_u16l_read() {
    let data = [0xf8, 0xff];
    assert_eq!(parse_u16l(&data), 0xff_f8_u16);
}

#[test]
fn test_i16l_read() {
    let data = [0xff, 0x00];
    assert_eq!(parse_i16l(&data), 0x00_ff_i16);
}

#[test]
fn test_var_string_read() {
    let data = [0x03, 0x00, 'c' as u8, 'a' as u8, 't' as u8];
    assert_eq!(parse_var_string(&data).unwrap(), String::from("cat"));
}

#[test]
fn test_string_read_null_terminated() {
    let data = ['c' as u8, 'a' as u8, 't' as u8, '\0' as u8];
    assert_eq!(parse_string(&data, 4).unwrap(), String::from("cat"));
}

#[test]
fn test_string_read_full() {
    let data = ['c' as u8, 'a' as u8, 't' as u8];
    assert_eq!(parse_string(&data, 3).unwrap(), String::from("cat"));
}

//////////////////////////////////////////////////////////////////////////////

#[test]
fn cursor_u16l_fails_short() {
    let data = [0x01u8];
    let mut cursor = ReadBufferCursor::new(&data);
    assert!(cursor.parse_u16l().is_err());
    assert_eq!(cursor.bytes_remaining(), 1);
}

#[test]
fn var_string_fails_when_length_overruns() {
    let data = [0x05u8, 0x00, b'c', b'a', b't'];
    assert!(parse_var_string(&data).is_err());
}

#[test]
fn string_read_rejects_invalid_utf8() {
    let data = [0xFFu8, 0xFEu8, 0xFDu8];
    assert!(parse_string(&data, 3).is_err());
}

#[test]
fn var_string_rejects_invalid_utf8() {
    let data = [0x02u8, 0x00, 0xC3u8, 0x28u8];
    assert!(parse_var_string(&data).is_err());
}

#[test]
fn cursor_get_byte_walks_forward() {
    let data = [7u8, 9u8];
    let mut cursor = ReadBufferCursor::new(&data);
    assert_eq!(cursor.get_byte().unwrap(), 7);
    assert_eq!(cursor.get_byte().unwrap(), 9);
    assert!(cursor.get_byte().is_err());
}

#[test]
fn i16l_negative_read() {
    let data = [0xFEu8, 0xFFu8];
    assert_eq!(parse_i16l(&data), -2i16);
}
