use nterm::input::{
    BUTTON1_PRESSED, BUTTON1_RELEASED, BUTTON2_PRESSED, BUTTON2_RELEASED, BUTTON3_PRESSED,
    BUTTON3_RELEASED, BUTTON_BITS, KEY_BACKSPACE, KEY_DOWN, KEY_END, KEY_ENTER, KEY_EXIT, KEY_F0,
    KEY_F15, KEY_HOME, KEY_LEFT, KEY_MOUSE, KEY_NPAGE, KEY_PPAGE, KEY_RESIZE, KEY_RIGHT, KEY_UP,
};
use nterm::Color;

#[test]
fn key_codes_match_the_backend() {
    assert_eq!(KEY_DOWN, ncurses::KEY_DOWN);
    assert_eq!(KEY_UP, ncurses::KEY_UP);
    assert_eq!(KEY_LEFT, ncurses::KEY_LEFT);
    assert_eq!(KEY_RIGHT, ncurses::KEY_RIGHT);
    assert_eq!(KEY_HOME, ncurses::KEY_HOME);
    assert_eq!(KEY_BACKSPACE, ncurses::KEY_BACKSPACE);
    assert_eq!(KEY_F0, ncurses::KEY_F0);
    assert_eq!(KEY_F15, ncurses::KEY_F15);
    assert_eq!(KEY_NPAGE, ncurses::KEY_NPAGE);
    assert_eq!(KEY_PPAGE, ncurses::KEY_PPAGE);
    assert_eq!(KEY_ENTER, ncurses::KEY_ENTER);
    assert_eq!(KEY_END, ncurses::KEY_END);
    assert_eq!(KEY_EXIT, ncurses::KEY_EXIT);
    assert_eq!(KEY_MOUSE, ncurses::KEY_MOUSE);
    assert_eq!(KEY_RESIZE, ncurses::KEY_RESIZE);
}

#[test]
fn button_bits_match_the_backend() {
    assert_eq!(BUTTON1_RELEASED, ncurses::BUTTON1_RELEASED as u32);
    assert_eq!(BUTTON1_PRESSED, ncurses::BUTTON1_PRESSED as u32);
    assert_eq!(BUTTON2_RELEASED, ncurses::BUTTON2_RELEASED as u32);
    assert_eq!(BUTTON2_PRESSED, ncurses::BUTTON2_PRESSED as u32);
    assert_eq!(BUTTON3_RELEASED, ncurses::BUTTON3_RELEASED as u32);
    assert_eq!(BUTTON3_PRESSED, ncurses::BUTTON3_PRESSED as u32);
    let all = BUTTON1_RELEASED | BUTTON1_PRESSED | BUTTON2_RELEASED | BUTTON2_PRESSED | BUTTON3_RELEASED | BUTTON3_PRESSED;
    assert_eq!(BUTTON_BITS, all);
}

#[test]
fn color_codes_match_the_backend() {
    assert_eq!(Color::Black.code(), ncurses::COLOR_BLACK);
    assert_eq!(Color::Red.code(), ncurses::COLOR_RED);
    assert_eq!(Color::Green.code(), ncurses::COLOR_GREEN);
    assert_eq!(Color::Yellow.code(), ncurses::COLOR_YELLOW);
    assert_eq!(Color::Blue.code(), ncurses::COLOR_BLUE);
    assert_eq!(Color::Magenta.code(), ncurses::COLOR_MAGENTA);
    assert_eq!(Color::Cyan.code(), ncurses::COLOR_CYAN);
    assert_eq!(Color::White.code(), ncurses::COLOR_WHITE);
}
