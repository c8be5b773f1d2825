use lurk::protocol::primitive_break::{break_i16l, break_string, break_string_fixed, break_u16l,
    OutputBuffer};

#[test]
fn test_break_u16l() {
    let val = 0x00_03_u16;

    let data = break_u16l(val);

    assert_eq!(data, [0x03, 0x00]);
}

#[test]
fn test_break_i16l() {
    let val = 0x08_04;

    let data = break_i16l(val);

    assert_eq!(data, [0x04u8, 0x08u8]);
}

#[test]
fn test_break_string() {
    let val = String::from("hello");

    let data = break_string(&val);

    assert_eq!(
        data,
        vec![0x05u8, 0x00u8, 'h' as u8, 'e' as u8, 'l' as u8, 'l' as u8, 'o' as u8]
    );
}

#[test]
fn test_break_string_fixed() {
    let val = String::from("hello");

    let data = break_string_fixed(&val, 16);

    assert_eq!(
        data,
        vec![
            'h' as u8, 'e' as u8, 'l' as u8, 'l' as u8, 'o' as u8, 0x00, 0x00, 0x00, 0x00, 0x00,
            0x00, 0x00, 0x00, 0x00, 0x00, 0x00,
        ]
    );
}

#[test]
fn break_i16l_negative() {
    let data = break_i16l(-1);
    assert_eq!(data, [0xFFu8, 0xFFu8]);
}

#[test]
fn break_string_fixed_truncates_long_text() {
    let data = break_string_fixed("abcdef", 4);
    assert_eq!(data, vec![b'a', b'b', b'c', b'd']);
}

#[test]
fn output_buffer_chains_fields() {
    let mut builder = OutputBuffer::new();
    builder.write_byte(9).write_u16l(0x0008).write_string_fixed("ab", 4).write_string("cd");
    assert_eq!(
        builder.data,
        vec![9u8, 0x08, 0x00, b'a', b'b', 0, 0, 0x02, 0x00, b'c', b'd']
    );
}

#[test]
fn output_buffer_write_i16l() {
    let mut builder = OutputBuffer::new();
    builder.write_i16l(-2);
    assert_eq!(builder.data, vec![0xFEu8, 0xFFu8]);
}
