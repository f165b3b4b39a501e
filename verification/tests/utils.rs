use cook_screen::constant::INVALID_CHARS;
use cook_screen::constant::SAVE_LOG_PATH;
use cook_screen::constant::SCREEN_BOTTOM_WIDTH;
use cook_screen::constant::SCREEN_HEIGHT;
use cook_screen::constant::SCREEN_TOP_WIDTH;
use cook_screen::constant::VERSION_STR;
use cook_screen::platform::contains_invalid_char;
use cook_screen::platform::invalid_char;
use cook_screen::platform::keyboard_result;
use cook_screen::platform::KeyboardButton;
use cook_screen::text::ends_with;
use cook_screen::text::matches_at;
use cook_screen::text::same_text;
use cook_screen::text::starts_with;
use cook_screen::utils::color_name_rgba;
use cook_screen::utils::get_frame_time;
use cook_screen::utils::rgba;
use cook_screen::utils::str_to_c_null_term_bytes;

#[test]
fn constants_have_their_values() {
    assert_eq!(SCREEN_TOP_WIDTH, 400);
    assert_eq!(SCREEN_BOTTOM_WIDTH, 320);
    assert_eq!(SCREEN_HEIGHT, 240);
    assert_eq!(SAVE_LOG_PATH, "/config/cook-screen/log/log.txt");
    assert_eq!(VERSION_STR, "v2024.10.28");
    assert_eq!(INVALID_CHARS, ['\\', '/', ':', '*', '?', '"', '\'', '<', '>', '|']);
}

#[test]
fn rgba_packs_red_lowest() {
    assert_eq!(rgba(0x12, 0x34, 0x56, 0x78), 0x78563412);
    assert_eq!(rgba(0, 0, 0, 0), 0);
    assert_eq!(rgba(255, 255, 255, 255), u32::MAX);
}

#[test]
fn colour_names_have_their_values() {
    assert_eq!(color_name_rgba("red"), 0xff0000ff);
    assert_eq!(color_name_rgba("green"), 0xff00ff00);
    assert_eq!(color_name_rgba("blue"), 0xffff0000);
    assert_eq!(color_name_rgba("dir"), 0xffd8b400);
    assert_eq!(color_name_rgba("white"), 0xffffffff);
    assert_eq!(color_name_rgba("gray"), 0xffbbbbbb);
    assert_eq!(color_name_rgba("black"), 0xff000000);
    assert_eq!(color_name_rgba("main-text"), 0xffeeeeee);
    assert_eq!(color_name_rgba("main_bg"), 0xff222222);
    assert_eq!(color_name_rgba("selected_bg"), 0xff444444);
    assert_eq!(color_name_rgba("selected_bg_info"), 0xff333333);
    assert_eq!(color_name_rgba("selected_bg_dark"), 0xff282828);
    assert_eq!(color_name_rgba("selected_bg_light"), 0xff606060);
    assert_eq!(color_name_rgba("transparent"), 0x00000000);
    assert_eq!(color_name_rgba("tips"), 0xffaaaaaa);
    assert_eq!(color_name_rgba("panel_bg"), 0xff262626);
}

#[test]
fn unknown_colour_is_black() {
    assert_eq!(color_name_rgba(""), 0xff000000);
    assert_eq!(color_name_rgba("Red"), 0xff000000);
    assert_eq!(color_name_rgba("reddish"), 0xff000000);
    assert_eq!(color_name_rgba("main_text"), 0xff000000);
}

#[test]
fn c_string_bytes_end_in_zero() {
    assert_eq!(str_to_c_null_term_bytes(""), vec![0]);
    assert_eq!(str_to_c_null_term_bytes("ab"), vec![b'a', b'b', 0]);
    assert_eq!(str_to_c_null_term_bytes("h\u{e9}"), vec![0x68, 0xc3, 0xa9, 0]);
}

#[test]
fn frame_time_by_model() {
    assert_eq!(get_frame_time(true), 16666);
    assert_eq!(get_frame_time(false), 33333);
}

#[test]
fn text_comparisons() {
    assert!(same_text("", ""));
    assert!(same_text("abc", "abc"));
    assert!(!same_text("abc", "abd"));
    assert!(!same_text("abc", "ab"));
    assert!(same_text("h\u{e9}", "h\u{e9}"));
    assert!(starts_with("src/a.rs", "src/"));
    assert!(!starts_with("sr", "src/"));
    assert!(starts_with("x", ""));
    assert!(ends_with("src/a.rs", ".rs"));
    assert!(!ends_with("rs", ".rs"));
    assert!(matches_at("hello", 2, "ll"));
    assert!(!matches_at("hello", 4, "ll"));
    assert!(matches_at("hello", 5, ""));
    assert!(!matches_at("hello", 6, ""));
}

#[test]
fn keyboard_filter_refuses_file_name_breakers() {
    for c in INVALID_CHARS {
        assert!(invalid_char(c));
        let text = format!("ab{}cd", c);
        assert!(contains_invalid_char(&text), "{:?}", text);
    }
    assert!(!invalid_char('a'));
    assert!(!invalid_char('.'));
    assert!(!contains_invalid_char(""));
    assert!(!contains_invalid_char("recipe-01 (final).txt"));
    assert!(contains_invalid_char("what?"));
    assert!(contains_invalid_char("|"));
}

#[test]
fn keyboard_yields_text_on_the_right_button_only() {
    assert_eq!(keyboard_result(KeyboardButton::Right, "soup".to_string()), Some("soup".to_string()));
    assert_eq!(keyboard_result(KeyboardButton::Right, String::new()), None);
    assert_eq!(keyboard_result(KeyboardButton::Left, "soup".to_string()), None);
    assert_eq!(keyboard_result(KeyboardButton::Middle, "soup".to_string()), None);
}
