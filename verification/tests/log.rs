use cook_screen::log::format_line;
use cook_screen::log::get_level;
use cook_screen::log::level_of_name;
use cook_screen::log::mask::find;
use cook_screen::log::mask::mask_line;
use cook_screen::log::mask::stands_at;
use cook_screen::log::module_label;
use cook_screen::log::open;
use cook_screen::log::rotate::decimal_text;
use cook_screen::log::rotate::extension_start;
use cook_screen::log::rotate::rotated_name;
use cook_screen::log::rotate::rotation_plan;
use cook_screen::log::Log2;
use cook_screen::log::LogLevel;

fn masked(line: &str, markers: &[&str]) -> String {
    String::from_utf8(mask_line(line.as_bytes(), &markers.to_vec())).unwrap()
}

#[test]
fn level_names_in_lower_case() {
    assert_eq!(level_of_name("debug"), LogLevel::Debug);
    assert_eq!(level_of_name("trace"), LogLevel::Trace);
    assert_eq!(level_of_name("info"), LogLevel::Info);
    assert_eq!(level_of_name("warn"), LogLevel::Warn);
    assert_eq!(level_of_name("error"), LogLevel::Error);
    assert_eq!(level_of_name("off"), LogLevel::Off);
    assert_eq!(level_of_name(""), LogLevel::Debug);
    assert_eq!(level_of_name("INFO"), LogLevel::Debug);
    assert_eq!(level_of_name("verbose"), LogLevel::Debug);
}

#[test]
fn level_names_in_any_case() {
    assert_eq!(get_level("INFO".to_string()), LogLevel::Info);
    assert_eq!(get_level("Warn".to_string()), LogLevel::Warn);
    assert_eq!(get_level("eRRoR".to_string()), LogLevel::Error);
    assert_eq!(get_level("OFF".to_string()), LogLevel::Off);
    assert_eq!(get_level("trace".to_string()), LogLevel::Trace);
    assert_eq!(get_level("nonsense".to_string()), LogLevel::Debug);
}

#[test]
fn new_logger_has_the_defaults() {
    let logger = Log2::new();
    assert_eq!(logger.path(), "");
    assert!(!logger.is_tee());
    assert!(logger.shows_module());
    assert_eq!(logger.file_size(), 100 * 1024 * 1024);
    assert_eq!(logger.count(), 10);
    assert_eq!(logger.level_name(), "");
    assert!(logger.masks().is_empty());
    assert_eq!(logger.max_level(), LogLevel::Trace);
}

#[test]
fn builders_set_one_thing_each() {
    let logger = open("log.txt").module(false).tee(true).size(4096).rotate(3).level("Warn").mask(
        vec!["token=", "key="],
    );
    assert_eq!(logger.path(), "log.txt");
    assert!(logger.is_tee());
    assert!(!logger.shows_module());
    assert_eq!(logger.file_size(), 4096);
    assert_eq!(logger.count(), 3);
    assert_eq!(logger.level_name(), "Warn");
    assert_eq!(logger.masks(), &vec!["token=", "key="]);
    assert_eq!(logger.max_level(), LogLevel::Warn);
}

#[test]
fn single_file_never_rotates() {
    let logger = Log2::new().rotate(1);
    assert_eq!(logger.file_size(), u64::MAX);
    let logger = logger.size(10);
    assert_eq!(logger.file_size(), u64::MAX);
    assert!(!logger.needs_rotation(1 << 40));
    let logger = logger.rotate(0);
    assert_eq!(logger.count(), 0);
    assert_eq!(logger.file_size(), u64::MAX);
    let logger = logger.rotate(5);
    assert_eq!(logger.file_size(), u64::MAX);
    let logger = logger.size(10);
    assert_eq!(logger.file_size(), 10);
    assert!(logger.needs_rotation(10));
    assert!(logger.needs_rotation(11));
    assert!(!logger.needs_rotation(9));
}

#[test]
fn module_labels() {
    assert_eq!(module_label("src/render/cache.rs"), "render/cache: ");
    assert_eq!(module_label("src/.rs"), ": ");
    assert_eq!(module_label("tests/log.rs"), "tests/log.rs: ");
    assert_eq!(module_label("src/main.c"), "src/main.c: ");
    assert_eq!(module_label("unknown"), "unknown: ");
    assert_eq!(module_label("src/caf\u{e9}.rs"), "caf\u{e9}: ");
}

#[test]
fn lines_are_put_together() {
    assert_eq!(
        format_line("12:00:01", "INFO", "app: ", "started"),
        "[12:00:01] [INFO] app: started\n"
    );
    assert_eq!(format_line("", "", "", ""), "[] [] \n");
}

#[test]
fn records_become_lines() {
    let logger = open("log.txt");
    assert_eq!(
        logger.log_line("src/app.rs", "t", "WARN", "slow"),
        Some("[t] [WARN] app: slow\n".to_string())
    );
    assert_eq!(logger.log_line("/home/u/.cargo/x/src/lib.rs", "t", "WARN", "slow"), None);
    let plain = open("log.txt").module(false);
    assert_eq!(plain.log_line("src/app.rs", "t", "WARN", "slow"), Some("[t] [WARN] slow\n".to_string()));
    let nowhere = Log2::new();
    assert_eq!(nowhere.log_line("src/app.rs", "t", "WARN", "slow"), None);
    let stdout = Log2::new().tee(true);
    assert_eq!(
        stdout.log_line("unknown", "t", "ERROR", "x"),
        Some("[t] [ERROR] unknown: x\n".to_string())
    );
}

#[test]
fn finds_the_first_place() {
    assert_eq!(find(b"abcabc", b"bc"), Some(1));
    assert_eq!(find(b"abcabc", b"abc"), Some(0));
    assert_eq!(find(b"abcabc", b"cab"), Some(2));
    assert_eq!(find(b"abcabc", b"abcabc"), Some(0));
    assert_eq!(find(b"abcabc", b"abcabcd"), None);
    assert_eq!(find(b"abcabc", b"x"), None);
    assert_eq!(find(b"abcabc", b""), Some(0));
    assert_eq!(find(b"", b""), Some(0));
    assert_eq!(find(b"", b"a"), None);
    assert_eq!(find(b"aab", b"ab"), Some(1));
    assert!(stands_at(b"abc", b"bc", 1));
    assert!(!stands_at(b"abc", b"bc", 2));
    assert!(stands_at(b"abc", b"", 3));
    assert!(!stands_at(b"abc", b"", 4));
}

#[test]
fn line_without_marker_stays() {
    assert_eq!(masked("nothing to hide\n", &["token="]), "nothing to hide\n");
    assert_eq!(masked("token=abc\n", &[]), "token=abc\n");
}

#[test]
fn secret_is_blanked_up_to_the_last_byte() {
    assert_eq!(
        masked("token=abcdefghijklmnopqrstuvwxyz0123456789\n", &["token="]),
        "token=abcdefg******\n"
    );
    assert_eq!(
        masked("x password=hunter2hunter2 end", &["password="]),
        "x password=hunt******d"
    );
}

#[test]
fn at_most_sixty_bytes_are_blanked() {
    let line = format!("k={}", "a".repeat(100));
    let expected = format!("k={}******{}", "a".repeat(11), "a".repeat(29));
    assert_eq!(masked(&line, &["k="]), expected);
    let line = format!("k={}Z", "a".repeat(71));
    let expected = format!("k={}******Z", "a".repeat(11));
    assert_eq!(masked(&line, &["k="]), expected);
    let line = format!("k={}YZ", "a".repeat(71));
    let expected = format!("k={}******YZ", "a".repeat(11));
    assert_eq!(masked(&line, &["k="]), expected);
    let line = format!("k={}Z", "a".repeat(70));
    let expected = format!("k={}******Z", "a".repeat(11));
    assert_eq!(masked(&line, &["k="]), expected);
}

#[test]
fn short_tail_is_left_alone() {
    assert_eq!(masked("secret=abc", &["secret="]), "secret=abc");
    assert_eq!(masked("0123456789abcd", &["0"]), "0123456789abcd");
    assert_eq!(masked("0123456789abcde", &["0"]), "0123456789abc******e");
}

#[test]
fn first_marker_in_the_list_decides() {
    let line = "b=1234567890123456 a=1234567890123456 end";
    assert_eq!(masked(line, &["a=", "b="]), "b=1234567890123456 a=12345678901******d");
    assert_eq!(masked(line, &["b=", "a="]), "b=12345678901******d");
    assert_eq!(masked(line, &["zz", "a="]), "b=1234567890123456 a=12345678901******d");
}

#[test]
fn numbers_in_decimal() {
    assert_eq!(decimal_text(0), "0");
    assert_eq!(decimal_text(7), "7");
    assert_eq!(decimal_text(10), "10");
    assert_eq!(decimal_text(1234567890), "1234567890");
    assert_eq!(decimal_text(usize::MAX), usize::MAX.to_string());
}

#[test]
fn extension_begins_at_the_last_dot() {
    assert_eq!(extension_start("log.txt"), 3);
    assert_eq!(extension_start("a.b.c"), 3);
    assert_eq!(extension_start("log"), 3);
    assert_eq!(extension_start(".hidden"), 7);
    assert_eq!(extension_start(""), 0);
    assert_eq!(extension_start("x."), 1);
    assert_eq!(extension_start("/var/log.d/app"), 8);
}

#[test]
fn rotated_names() {
    assert_eq!(rotated_name("log.txt", 0), "log.txt");
    assert_eq!(rotated_name("log.txt", 1), "log.1.txt");
    assert_eq!(rotated_name("log.txt", 12), "log.12.txt");
    assert_eq!(rotated_name("log", 2), "log.2");
    assert_eq!(rotated_name(".hidden", 3), ".hidden.3");
    assert_eq!(rotated_name("/config/cook-screen/log/log.txt", 9), "/config/cook-screen/log/log.9.txt");
    assert_eq!(rotated_name("a.b.c", 1), "a.b.1.c");
}

#[test]
fn rotation_moves_the_oldest_first() {
    let plan = rotation_plan("log.txt", 4);
    let expected = vec![
        ("log.2.txt".to_string(), "log.3.txt".to_string()),
        ("log.1.txt".to_string(), "log.2.txt".to_string()),
        ("log.txt".to_string(), "log.1.txt".to_string()),
    ];
    assert_eq!(plan, expected);
    assert!(rotation_plan("log.txt", 1).is_empty());
    assert_eq!(rotation_plan("log.txt", 2), vec![("log.txt".to_string(), "log.1.txt".to_string())]);
}

#[test]
fn logger_blanks_after_its_own_markers() {
    let logger = Log2::new().mask(vec!["token=", "key="]);
    assert_eq!(
        logger.masked("GET /?key=0123456789abcdefghij HTTP/1.1\n"),
        b"GET /?key=012345678******\n".to_vec()
    );
    assert_eq!(logger.masked("plain\n"), b"plain\n".to_vec());
    assert_eq!(Log2::new().masked("token=0123456789abcdef"), b"token=0123456789abcdef".to_vec());
}

#[test]
fn cut_counts_bytes_not_characters() {
    let logger = Log2::new().mask(vec!["k="]);
    let line = format!("k={}\u{e9}{}", "a".repeat(10), "b".repeat(10));
    let bytes = logger.masked(&line);
    let mut expected = format!("k={}", "a".repeat(10)).into_bytes();
    expected.push(0xc3);
    expected.extend_from_slice(b"******b");
    assert_eq!(bytes, expected);
    assert!(String::from_utf8(bytes).is_err());
}
