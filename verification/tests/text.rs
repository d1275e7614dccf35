use boros::cpuio::interrupts::exceptions::{DescriptorTable, ErrorCode};
use boros::text::{decimal_digits, hexadecimal_digits, push_all};
use boros::vga_buffer::{Color, ColorCode, Writer};

#[test]
fn decimal_digits_of_numbers() {
    assert_eq!(decimal_digits(0), b"0");
    assert_eq!(decimal_digits(7), b"7");
    assert_eq!(decimal_digits(10), b"10");
    assert_eq!(decimal_digits(255), b"255");
    assert_eq!(decimal_digits(1_000_000), b"1000000");
    assert_eq!(decimal_digits(u64::MAX), b"18446744073709551615");
}

#[test]
fn hexadecimal_digits_of_numbers() {
    assert_eq!(hexadecimal_digits(0), b"0");
    assert_eq!(hexadecimal_digits(9), b"9");
    assert_eq!(hexadecimal_digits(10), b"a");
    assert_eq!(hexadecimal_digits(15), b"f");
    assert_eq!(hexadecimal_digits(16), b"10");
    assert_eq!(hexadecimal_digits(0xdead_beef), b"deadbeef");
    assert_eq!(hexadecimal_digits(u64::MAX), b"ffffffffffffffff");
}

#[test]
fn bytes_are_put_behind() {
    let mut text = b"ab".to_vec();
    push_all(&mut text, b"cd");
    push_all(&mut text, b"");
    assert_eq!(text, b"abcd");
}

#[test]
fn error_code_in_words() {
    assert_eq!(ErrorCode(0).text(), b"n/a");
    assert_eq!(ErrorCode(1).text(), b"External Error in GDT (at index 0x0)");
    assert_eq!(ErrorCode(0x53).text(), b"External Error in IDT (at index 0xa)");
    assert_eq!(ErrorCode(0x1234).text(), b"Error in LDT (at index 0x246)");
    assert_eq!(ErrorCode(8).text(), b"Error in GDT (at index 0x1)");
    assert_eq!(DescriptorTable::GDT.name(), "GDT");
    assert_eq!(DescriptorTable::IDT.name(), "IDT");
    assert_eq!(DescriptorTable::LDT.name(), "LDT");
}

#[test]
fn escape_sequences_of_colors() {
    assert_eq!(Color::BLACK.escape(), b"\\0;");
    assert_eq!(Color::RED.escape(), b"\\4;");
    assert_eq!(Color::LIGHT_BLUE.escape(), b"\\9;");
    assert_eq!(Color::LIGHT_GREEN.escape(), b"\\10;");
    assert_eq!(Color::WHITE.escape(), b"\\15;");
    assert_eq!(ColorCode(0x00).escape(), b"\\0,0;");
    assert_eq!(ColorCode(0x4f).escape(), b"\\4,15;");
    assert_eq!(ColorCode(0xa1).escape(), b"\\10,1;");
    assert_eq!(ColorCode(0xff).escape(), b"\\15,15;");
}

#[test]
fn escape_sequence_of_a_color_sets_that_color_on_black() {
    for number in 0..16u8 {
        let color = Color::from_u8(number).unwrap();
        let mut writer = Writer::new();
        writer.set_color(ColorCode(0x5a));
        writer.write_byte(b'a');
        for byte in color.escape() {
            writer.write_byte(byte);
        }
        assert_eq!(writer.color(), ColorCode::new(color, Color::BLACK));
        assert_eq!(writer.position(), (0, 1));
        assert_eq!(writer.escape_step(), 0);
    }
}

#[test]
fn escape_sequence_of_a_color_code_is_read_the_other_way_round() {
    // The sequence names the colour behind the characters first; the writer
    // takes the first number for the colour of the characters.
    let mut writer = Writer::new();
    let code = ColorCode::new(Color::YELLOW, Color::BLUE);
    for byte in code.escape() {
        writer.write_byte(byte);
    }
    assert_eq!(writer.color(), ColorCode::new(Color::BLUE, Color::YELLOW));
}
