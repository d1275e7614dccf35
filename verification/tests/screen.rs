use boros::vga_buffer::{
    clear_screen, switch_color, Color, ColorCode, Line, ScreenChar, Writer, SCREEN_HEIGHT,
    SCREEN_WIDTH,
};

const LIGHT_GREEN_ON_BLACK: ColorCode = ColorCode(0x0a);

fn text_of_row(writer: &Writer, row: usize) -> String {
    (0..SCREEN_WIDTH).map(|col| writer.char_at(row, col).character as char).collect()
}

fn row_starts_with(writer: &Writer, row: usize, text: &str) -> bool {
    let shown = text_of_row(writer, row);
    shown.starts_with(text) && shown[text.len()..].chars().all(|c| c == ' ')
}

#[test]
fn colors_by_number() {
    let colors = [
        Color::BLACK,
        Color::BLUE,
        Color::GREEN,
        Color::CYAN,
        Color::RED,
        Color::MAGENTA,
        Color::BROWN,
        Color::LIGHT_GRAY,
        Color::DARK_GRAY,
        Color::LIGHT_BLUE,
        Color::LIGHT_GREEN,
        Color::LIGHT_CYAN,
        Color::LIGHT_RED,
        Color::PINK,
        Color::YELLOW,
        Color::WHITE,
    ];
    for (number, color) in colors.iter().enumerate() {
        assert_eq!(color.code(), number as u8);
        assert_eq!(Color::from_u8(number as u8), Some(*color));
    }
    for number in 16..=255u8 {
        assert_eq!(Color::from_u8(number), None);
    }
}

#[test]
fn color_code_holds_two_colors() {
    assert_eq!(ColorCode::new(Color::WHITE, Color::BLACK), ColorCode(0x0f));
    assert_eq!(ColorCode::new(Color::BLACK, Color::WHITE), ColorCode(0xf0));
    assert_eq!(ColorCode::new(Color::LIGHT_GREEN, Color::BLACK), LIGHT_GREEN_ON_BLACK);
    assert_eq!(ColorCode::new(Color::RED, Color::BLUE), ColorCode(0x14));
    assert_eq!(ColorCode::new(Color::YELLOW, Color::PINK), ColorCode(0xde));
}

#[test]
fn new_writer_shows_blanks() {
    let writer = Writer::new();
    assert_eq!(writer.position(), (0, 0));
    assert_eq!(writer.color(), LIGHT_GREEN_ON_BLACK);
    assert_eq!(writer.scroll_count(), 0);
    assert_eq!(writer.escape_step(), 0);
    for row in 0..SCREEN_HEIGHT {
        for col in 0..SCREEN_WIDTH {
            assert_eq!(
                writer.char_at(row, col),
                ScreenChar { character: b' ', color_code: LIGHT_GREEN_ON_BLACK }
            );
        }
    }
}

#[test]
fn bytes_are_shown_one_after_the_other() {
    let mut writer = Writer::new();
    writer.write_byte(b'H');
    writer.write_byte(b'i');
    assert_eq!(writer.position(), (0, 2));
    assert_eq!(
        writer.char_at(0, 0),
        ScreenChar { character: b'H', color_code: LIGHT_GREEN_ON_BLACK }
    );
    assert!(row_starts_with(&writer, 0, "Hi"));
    writer.write_str("!\nnext");
    assert!(row_starts_with(&writer, 0, "Hi!"));
    assert!(row_starts_with(&writer, 1, "next"));
    assert_eq!(writer.position(), (1, 4));
}

#[test]
fn full_row_breaks_before_the_next_byte() {
    let mut writer = Writer::new();
    writer.write_str(&"x".repeat(80));
    assert_eq!(writer.position(), (0, 80));
    writer.write_byte(b'y');
    assert_eq!(writer.position(), (1, 1));
    assert_eq!(text_of_row(&writer, 0), "x".repeat(80));
    assert!(row_starts_with(&writer, 1, "y"));
    // A line break on a full row does not skip a row.
    let mut writer = Writer::new();
    writer.write_str(&"x".repeat(80));
    writer.write_byte(b'\n');
    assert_eq!(writer.position(), (1, 0));
}

#[test]
fn last_row_scrolls() {
    let mut writer = Writer::new();
    for row in 0..SCREEN_HEIGHT {
        writer.write_str(&format!("row {}", row));
        if row < SCREEN_HEIGHT - 1 {
            writer.write_byte(b'\n');
        }
    }
    assert_eq!(writer.position(), (24, 6));
    assert_eq!(writer.scroll_count(), 0);
    assert!(row_starts_with(&writer, 0, "row 0"));
    writer.new_line();
    assert_eq!(writer.position(), (24, 0));
    assert_eq!(writer.scroll_count(), 1);
    for row in 0..SCREEN_HEIGHT - 1 {
        assert!(row_starts_with(&writer, row, &format!("row {}", row + 1)));
    }
    assert!(row_starts_with(&writer, 24, ""));
    writer.write_str("\n\n");
    assert_eq!(writer.scroll_count(), 3);
    assert!(row_starts_with(&writer, 0, "row 3"));
}

#[test]
fn escape_sequence_sets_the_colors() {
    let mut writer = Writer::new();
    writer.write_str("a\\4;b");
    assert_eq!(writer.position(), (0, 2));
    assert_eq!(writer.color(), ColorCode(0x04));
    assert_eq!(writer.char_at(0, 0).color_code, LIGHT_GREEN_ON_BLACK);
    assert_eq!(writer.char_at(0, 1), ScreenChar { character: b'b', color_code: ColorCode(0x04) });

    writer.write_str("\\15,1;c");
    assert_eq!(writer.color(), ColorCode(0x1f));
    assert_eq!(writer.char_at(0, 2), ScreenChar { character: b'c', color_code: ColorCode(0x1f) });
    assert_eq!(writer.escape_step(), 0);
}

#[test]
fn escape_sequence_step_by_step() {
    let mut writer = Writer::new();
    writer.write_byte(b'\\');
    assert_eq!(writer.escape_step(), 1);
    writer.write_byte(b'1');
    writer.write_byte(b'2');
    assert_eq!(writer.escape_step(), 1);
    writer.write_byte(b',');
    assert_eq!(writer.escape_step(), 2);
    writer.write_byte(b'3');
    assert_eq!(writer.position(), (0, 0));
    writer.write_byte(b';');
    assert_eq!(writer.escape_step(), 0);
    assert_eq!(writer.color(), ColorCode::new(Color::LIGHT_RED, Color::CYAN));
    assert_eq!(writer.position(), (0, 0));
}

#[test]
fn numbers_that_are_no_colors_leave_the_colors() {
    let mut writer = Writer::new();
    writer.write_str("\\16;");
    assert_eq!(writer.color(), LIGHT_GREEN_ON_BLACK);
    writer.write_str("\\3,16;");
    assert_eq!(writer.color(), LIGHT_GREEN_ON_BLACK);
    writer.write_str("\\;");
    assert_eq!(writer.color(), ColorCode(0x00));
    assert_eq!(writer.position(), (0, 0));
}

#[test]
fn number_that_grows_too_large_ends_the_sequence() {
    let mut writer = Writer::new();
    // 2, 26, and the third digit finds 26: the sequence ends without it.
    writer.write_str("\\263");
    assert_eq!(writer.escape_step(), 0);
    assert_eq!(writer.position(), (0, 0));
    writer.write_str(";");
    assert!(row_starts_with(&writer, 0, ";"));
    assert_eq!(writer.color(), LIGHT_GREEN_ON_BLACK);
}

#[test]
fn number_wraps_at_256() {
    let mut writer = Writer::new();
    // 2, 25, then 259, which is held as 3.
    writer.write_str("\\259;");
    assert_eq!(writer.color(), ColorCode::new(Color::CYAN, Color::BLACK));
    writer.write_str("\\1,256;");
    assert_eq!(writer.color(), ColorCode::new(Color::BLUE, Color::BLACK));
}

#[test]
fn byte_that_does_not_fit_ends_the_sequence_and_is_written() {
    let mut writer = Writer::new();
    writer.write_str("\\1x");
    assert_eq!(writer.escape_step(), 0);
    assert!(row_starts_with(&writer, 0, "x"));
    writer.write_str("\\1,2,");
    assert!(row_starts_with(&writer, 0, "x,"));
    writer.write_str("\\\n");
    assert_eq!(writer.position(), (1, 0));
    // A backslash inside a sequence starts a new one.
    writer.write_str("\\1\\2;");
    assert_eq!(writer.color(), ColorCode(0x02));
    assert!(row_starts_with(&writer, 1, ""));
}

#[test]
fn byte_at_a_place() {
    let mut writer = Writer::new();
    writer.write_byte_at(b'#', 24, 79);
    writer.write_byte_at(b'@', 3, 5);
    assert_eq!(writer.char_at(24, 79).character, b'#');
    assert_eq!(writer.char_at(3, 5).character, b'@');
    assert_eq!(writer.char_at(3, 4).character, b' ');
    assert_eq!(writer.position(), (0, 0));
}

#[test]
fn clear_row_uses_the_current_color() {
    let mut writer = Writer::new();
    writer.write_str("abc");
    switch_color(&mut writer, Color::RED, Color::WHITE);
    writer.clear_row(0);
    for col in 0..SCREEN_WIDTH {
        assert_eq!(
            writer.char_at(0, col),
            ScreenChar { character: b' ', color_code: ColorCode(0xf4) }
        );
    }
    assert_eq!(writer.char_at(1, 0).color_code, LIGHT_GREEN_ON_BLACK);
    assert_eq!(writer.position(), (0, 3));
}

#[test]
fn clear_screen_leaves_the_last_row() {
    let mut writer = Writer::new();
    writer.write_byte_at(b'a', 0, 0);
    writer.write_byte_at(b'b', 23, 1);
    writer.write_byte_at(b'c', 24, 2);
    writer.write_str("xy");
    clear_screen(&mut writer);
    assert!(row_starts_with(&writer, 0, ""));
    assert!(row_starts_with(&writer, 23, ""));
    assert_eq!(writer.char_at(24, 2).character, b'c');
    assert_eq!(writer.scroll_count(), 25);
    assert_eq!(writer.position(), (0, 2));
    writer.clear_screen();
    assert_eq!(writer.scroll_count(), 50);
}

#[test]
fn line_can_be_written_to_later() {
    let mut writer = Writer::new();
    writer.write_str("Setting up");
    let mut line = writer.get_line();
    assert_eq!(line, Line { row: 0, col: 0, creation_point: 0 });
    assert_eq!(writer.position(), (1, 0));
    writer.write_str("other text\n");
    line.write(&mut writer, "more");
    assert_eq!(line.col, 4);
    line.write(&mut writer, "!");
    assert_eq!(line.col, 5);
    assert!(row_starts_with(&writer, 0, "more!ng up"));
    line.write_at(&mut writer, "far", 70);
    assert_eq!(&text_of_row(&writer, 0)[68..75], "  far  ");
    assert_eq!(line.col, 5);
    assert_eq!(writer.position(), (2, 0));
}

#[test]
fn line_follows_the_screen_up() {
    let mut writer = Writer::new();
    for _ in 0..24 {
        writer.new_line();
    }
    let line = writer.get_line();
    // The cursor was in the last row: the screen has scrolled, and the line
    // is the row above the cursor.
    assert_eq!(line, Line { row: 23, col: 0, creation_point: 1 });
    writer.new_line();
    writer.new_line();
    line.write_at(&mut writer, "here", 0);
    assert!(row_starts_with(&writer, 21, "here"));
    assert!(row_starts_with(&writer, 23, ""));
    for _ in 0..21 {
        writer.new_line();
    }
    assert!(row_starts_with(&writer, 0, "here"));
    line.write_at(&mut writer, "top", 0);
    assert!(row_starts_with(&writer, 0, "tope"));
    writer.new_line();
    line.write_at(&mut writer, "gone", 0);
    for row in 0..SCREEN_HEIGHT {
        assert!(!text_of_row(&writer, row).contains("gone"));
    }
}

#[test]
fn line_is_cut_off_at_the_end_of_the_row() {
    let mut writer = Writer::new();
    let line = writer.get_line();
    line.write_at(&mut writer, "abcdef", 77);
    assert_eq!(&text_of_row(&writer, 0)[76..], " abc");
    assert!(row_starts_with(&writer, 1, ""));
    line.write_bytes_at(&mut writer, &[], 200);
    line.write_at(&mut writer, "", 80);
    assert_eq!(&text_of_row(&writer, 0)[76..], " abc");
}

#[test]
fn line_that_has_left_the_screen_takes_any_offset() {
    let mut writer = Writer::new();
    writer.write_str("first");
    let mut line = writer.get_line();
    assert_eq!(line.row_on_screen(&writer), Some(0));
    writer.write_str("second");
    for _ in 0..25 {
        writer.new_line();
    }
    assert_eq!(line.row_on_screen(&writer), None);
    let before: Vec<String> = (0..SCREEN_HEIGHT).map(|row| text_of_row(&writer, row)).collect();
    line.write_at(&mut writer, "late", 80);
    line.write_bytes_at(&mut writer, b"later", 5000);
    line.col = 90;
    line.write(&mut writer, "last");
    assert_eq!(line.col, 94);
    let after: Vec<String> = (0..SCREEN_HEIGHT).map(|row| text_of_row(&writer, row)).collect();
    assert_eq!(before, after);
}

#[test]
fn row_on_screen_follows_the_scrolling() {
    let mut writer = Writer::new();
    for _ in 0..24 {
        writer.new_line();
    }
    let line = writer.get_line();
    assert_eq!(line.row_on_screen(&writer), Some(23));
    writer.new_line();
    assert_eq!(line.row_on_screen(&writer), Some(22));
    for _ in 0..22 {
        writer.new_line();
    }
    assert_eq!(line.row_on_screen(&writer), Some(0));
    writer.new_line();
    assert_eq!(line.row_on_screen(&writer), None);
    let ahead = Line { row: 30, col: 0, creation_point: writer.scroll_count() };
    assert_eq!(ahead.row_on_screen(&writer), None);
}

#[test]
fn line_from_after_the_counter_has_wrapped() {
    let mut writer = Writer::new();
    let line = Line { row: 3, col: 0, creation_point: u32::MAX };
    // The screen has scrolled once since the line was made.
    line.write_at(&mut writer, "wrapped", 0);
    assert!(row_starts_with(&writer, 2, "wrapped"));
}

#[test]
fn ok_and_fail_marks() {
    let mut writer = Writer::new();
    writer.write_str("Step one");
    let line = writer.get_line();
    line.ok(&mut writer);
    assert_eq!(&text_of_row(&writer, 0)[72..], " [ OK ] ");
    assert_eq!(writer.char_at(0, 73), ScreenChar { character: b'[', color_code: ColorCode(0x0f) });
    assert_eq!(writer.char_at(0, 75), ScreenChar { character: b'O', color_code: ColorCode(0x02) });
    assert_eq!(writer.char_at(0, 76), ScreenChar { character: b'K', color_code: ColorCode(0x02) });
    assert_eq!(writer.char_at(0, 78), ScreenChar { character: b']', color_code: ColorCode(0x0f) });
    assert_eq!(writer.color(), ColorCode(0x0f));

    writer.write_str("Step two");
    let line = writer.get_line();
    line.fail(&mut writer);
    assert_eq!(&text_of_row(&writer, 1)[72..], " [FAIL] ");
    assert_eq!(writer.char_at(1, 73).color_code, ColorCode(0x0f));
    assert_eq!(writer.char_at(1, 74).color_code, ColorCode(0x02));
    assert_eq!(writer.char_at(1, 78).color_code, ColorCode(0x02));
    assert_eq!(writer.color(), ColorCode(0x02));
    assert!(text_of_row(&writer, 1).starts_with("Step two"));
}

#[test]
fn switch_color_changes_what_is_written_next() {
    let mut writer = Writer::new();
    writer.write_byte(b'a');
    switch_color(&mut writer, Color::YELLOW, Color::BLUE);
    writer.write_byte(b'b');
    writer.set_color(ColorCode(0x70));
    writer.write_byte(b'c');
    assert_eq!(writer.char_at(0, 0).color_code, LIGHT_GREEN_ON_BLACK);
    assert_eq!(writer.char_at(0, 1).color_code, ColorCode(0x1e));
    assert_eq!(writer.char_at(0, 2).color_code, ColorCode(0x70));
}
