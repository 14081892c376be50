use cga_text::cga::CGA;
use cga_text::color::{encode_attribute, Color, CGA_STD_ATTR};
use cga_text::cursor::CursorRegister;
use cga_text::frame_buffer::{FrameBuffer, CGA_COLUMNS, CGA_ROWS};
use cga_text::keyboard_demo::handle_key;
use cga_text::text_demo::run;

fn snapshot(cga: &CGA) -> Vec<(u8, u8)> {
    let mut cells = Vec::new();
    for y in 0..CGA_ROWS {
        for x in 0..CGA_COLUMNS {
            cells.push(cga.read_cell(x, y));
        }
    }
    cells
}

fn cleared() -> CGA {
    let mut cga = CGA::new();
    cga.clear();
    cga
}

#[test]
fn setpos_then_getpos_round_trips() {
    let mut cga = CGA::new();
    for y in 0..CGA_ROWS {
        for x in 0..CGA_COLUMNS {
            cga.setpos(x, y);
            assert_eq!(cga.getpos(), (x, y));
        }
    }
}

#[test]
fn cursor_register_keeps_both_bytes() {
    let mut reg = CursorRegister::new();
    assert_eq!(reg.read(), 0);
    reg.write(1999);
    assert_eq!(reg.read(), 1999);
    reg.write(0x1234);
    assert_eq!(reg.read(), 0x1234);
    assert_eq!(reg.read(), 0x1234);
}

#[test]
fn show_off_page_changes_nothing() {
    let mut cga = cleared();
    cga.show(3, 4, 'q', 0x17);
    let before = snapshot(&cga);
    cga.show(CGA_COLUMNS, 0, 'X', 0x4f);
    cga.show(0, CGA_ROWS, 'X', 0x4f);
    cga.show(CGA_COLUMNS, CGA_ROWS, 'X', 0x4f);
    cga.show(usize::MAX, 3, 'X', 0x4f);
    assert_eq!(snapshot(&cga), before);
    assert_eq!(cga.getpos(), (0, 0));
}

#[test]
fn write_cell_off_page_changes_nothing() {
    let mut fb = FrameBuffer::new();
    fb.write_cell(79, 24, b'k', 0x21);
    fb.write_cell(80, 24, b'X', 0x4f);
    fb.write_cell(0, 25, b'X', 0x4f);
    for y in 0..CGA_ROWS {
        for x in 0..CGA_COLUMNS {
            let expected = if (x, y) == (79, 24) { (b'k', 0x21) } else { (0, 0) };
            assert_eq!(fb.read_cell(x, y), expected);
        }
    }
}

#[test]
fn show_places_cell_and_keeps_cursor() {
    let mut cga = cleared();
    cga.setpos(5, 6);
    cga.show(10, 10, 'f', 0x54);
    assert_eq!(cga.read_cell(10, 10), (b'f', 0x54));
    assert_eq!(cga.read_cell(11, 10), (b' ', CGA_STD_ATTR));
    assert_eq!(cga.getpos(), (5, 6));
}

#[test]
fn clear_blanks_every_cell_and_homes_cursor() {
    let mut cga = CGA::new();
    cga.show(7, 7, 'z', 0x11);
    cga.setpos(40, 12);
    cga.clear();
    for cell in snapshot(&cga) {
        assert_eq!(cell, (b' ', CGA_STD_ATTR));
    }
    assert_eq!(cga.getpos(), (0, 0));
}

#[test]
fn full_page_print_scrolls_once() {
    let mut cga = cleared();
    let text: Vec<u8> = (0..CGA_COLUMNS * CGA_ROWS).map(|i| b'a' + (i % 26) as u8).collect();
    for &b in &text {
        cga.print_byte(b);
    }
    assert_eq!(cga.getpos(), (0, CGA_ROWS - 1));
    for y in 0..CGA_ROWS - 1 {
        for x in 0..CGA_COLUMNS {
            let i = (y + 1) * CGA_COLUMNS + x;
            assert_eq!(cga.read_cell(x, y), (text[i], CGA_STD_ATTR));
        }
    }
    for x in 0..CGA_COLUMNS {
        assert_eq!(cga.read_cell(x, CGA_ROWS - 2), (text[text.len() - CGA_COLUMNS + x], CGA_STD_ATTR));
        assert_eq!(cga.read_cell(x, CGA_ROWS - 1), (b' ', CGA_STD_ATTR));
    }
}

#[test]
fn scrollup_moves_lettered_rows() {
    let mut cga = cleared();
    for y in 0..CGA_ROWS {
        for x in 0..CGA_COLUMNS {
            cga.show(x, y, (b'A' + y as u8) as char, CGA_STD_ATTR);
        }
    }
    cga.setpos(17, 3);
    cga.scrollup();
    for y in 0..CGA_ROWS - 1 {
        for x in 0..CGA_COLUMNS {
            assert_eq!(cga.read_cell(x, y), (b'A' + y as u8 + 1, CGA_STD_ATTR));
        }
    }
    for x in 0..CGA_COLUMNS {
        assert_eq!(cga.read_cell(x, CGA_ROWS - 1), (b' ', CGA_STD_ATTR));
    }
    assert_eq!(cga.getpos(), (0, CGA_ROWS - 1));
}

#[test]
fn scrollup_keeps_attributes() {
    let mut cga = cleared();
    cga.show(4, 1, 'm', 0x3c);
    cga.show(79, 24, 'n', 0x4e);
    cga.scrollup();
    assert_eq!(cga.read_cell(4, 0), (b'm', 0x3c));
    assert_eq!(cga.read_cell(79, 23), (b'n', 0x4e));
    assert_eq!(cga.read_cell(4, 1), (b' ', CGA_STD_ATTR));
}

#[test]
fn blink_only_touches_bit_seven() {
    let colors = [
        Color::Black, Color::Blue, Color::Green, Color::Cyan, Color::Red, Color::Pink,
        Color::Brown, Color::LightGray, Color::DarkGray, Color::LightBlue, Color::LightGreen,
        Color::LightCyan, Color::LightRed, Color::LightPink, Color::Yellow, Color::White,
    ];
    for (f, &fg) in colors.iter().enumerate() {
        for (b, &bg) in colors.iter().enumerate() {
            let plain = encode_attribute(fg, bg, false);
            let blinking = encode_attribute(fg, bg, true);
            assert_eq!((plain ^ blinking) & 0x7f, 0);
            assert_eq!(((plain >> 4) as usize, (plain & 0xf) as usize), (f, b));
            assert_eq!(((blinking >> 4) as usize, (blinking & 0xf) as usize), (f, b));
        }
    }
}

#[test]
fn attribute_packs_foreground_high() {
    let mut cga = CGA::new();
    assert_eq!(cga.attribute(Color::Red, Color::Pink, true), 0x54);
    assert_eq!(cga.attribute(Color::Black, Color::White, false), 0xf0);
    assert_eq!(cga.attribute(Color::Yellow, Color::Blue, false), 0x1e);
    assert_eq!(cga.attribute(Color::Black, Color::Green, false), CGA_STD_ATTR);
    assert_eq!(Color::LightCyan.value(), 11);
}

#[test]
fn print_hi_from_origin() {
    let mut cga = cleared();
    cga.print_byte(b'H');
    cga.print_byte(b'i');
    assert_eq!(cga.read_cell(0, 0), (b'H', CGA_STD_ATTR));
    assert_eq!(cga.read_cell(1, 0), (b'i', CGA_STD_ATTR));
    assert_eq!(cga.read_cell(2, 0), (b' ', CGA_STD_ATTR));
    assert_eq!(cga.getpos(), (2, 0));
}

#[test]
fn print_wraps_to_next_row() {
    let mut cga = cleared();
    cga.setpos(79, 3);
    cga.print_byte(b'w');
    assert_eq!(cga.read_cell(79, 3), (b'w', CGA_STD_ATTR));
    assert_eq!(cga.getpos(), (0, 4));
}

#[test]
fn print_at_last_cell_scrolls_first() {
    let mut cga = cleared();
    cga.show(0, 1, 'r', CGA_STD_ATTR);
    cga.show(5, 24, 'b', CGA_STD_ATTR);
    cga.setpos(79, 24);
    cga.print_byte(b'Z');
    assert_eq!(cga.read_cell(79, 23), (b'Z', CGA_STD_ATTR));
    assert_eq!(cga.read_cell(5, 23), (b'b', CGA_STD_ATTR));
    assert_eq!(cga.read_cell(0, 0), (b'r', CGA_STD_ATTR));
    for x in 0..CGA_COLUMNS {
        assert_eq!(cga.read_cell(x, 24), (b' ', CGA_STD_ATTR));
    }
    assert_eq!(cga.getpos(), (0, 24));
}

#[test]
fn text_demo_clears() {
    let mut cga = CGA::new();
    cga.setpos(9, 9);
    run(&mut cga);
    assert_eq!(cga.read_cell(9, 9), (b' ', CGA_STD_ATTR));
    assert_eq!(cga.getpos(), (0, 0));
}

#[test]
fn keyboard_demo_handles_keys() {
    let mut cga = cleared();
    assert!(!handle_key(&mut cga, false, 0));
    assert_eq!(cga.getpos(), (0, 0));
    assert!(!handle_key(&mut cga, true, 0));
    assert_eq!(cga.read_cell(0, 0), (b'-', CGA_STD_ATTR));
    assert!(!handle_key(&mut cga, true, 1));
    assert_eq!(cga.read_cell(1, 0), (1, CGA_STD_ATTR));
    assert!(handle_key(&mut cga, true, b'x'));
    assert_eq!(cga.getpos(), (2, 0));
}
