use setup_engine::utils::text::{is_space, is_yes, str_contains, trim};
use setup_engine::utils::{Color, Status, Stream};

#[test]
fn test_display_color() {
    assert_eq!(Color::Yellow.to_string(), "\x1b[33m");
    assert_eq!(Color::Green.to_string(), "\x1b[32m");
    assert_eq!(Color::Red.to_string(), "\x1b[31m");
    assert_eq!(Color::Blue.to_string(), "\x1b[34m");
    assert_eq!(Color::Reset.to_string(), "\x1b[0m");
}

#[test]
fn test_display_status() {
    assert_eq!(Status::Running.to_string(), "\x1b[34m");
    assert_eq!(Status::Success.to_string(), "\x1b[32m");
    assert_eq!(Status::Warning.to_string(), "\x1b[33m");
    assert_eq!(Status::Failure.to_string(), "\x1b[31m");
    assert_eq!(Status::Normal.to_string(), "\x1b[0m");
}

#[test]
fn test_display_status_of_skips_and_passes() {
    assert_eq!(Status::Skipped.to_string(), "\x1b[33m");
    assert_eq!(Status::Passed.to_string(), "\x1b[33m");
}

#[test]
fn test_print_message() {
    assert_eq!(
        Status::Running.format_message("Test running"),
        "\x1b[34m==> ⏳ Running\x1b[0m: Test running"
    );
    assert_eq!(
        Status::Success.format_message("Test success"),
        "\x1b[32m==> ✅ Success\x1b[0m: Test success"
    );
    assert_eq!(
        Status::Warning.format_message("Test warning"),
        "\x1b[33m==> ⚠️ Warning\x1b[0m: Test warning"
    );
    assert_eq!(
        Status::Failure.format_message("Test failure"),
        "\x1b[31m==> ❌ Failed\x1b[0m: Test failure"
    );
    assert_eq!(Status::Normal.format_message("Test normal"), "Test normal");
}

#[test]
fn test_format_message_of_skips_and_passes() {
    assert_eq!(
        Status::Skipped.format_message("pacman -Syu"),
        "\x1b[33m==> ⏭️ Skipped\x1b[0m: pacman -Syu"
    );
    assert_eq!(
        Status::Passed.format_message("git --version"),
        "\x1b[33m==> ✔️ Passed\x1b[0m: git --version"
    );
    assert_eq!(Status::Normal.format_message(""), "");
}

#[test]
fn test_status_default_is_normal() {
    assert_eq!(Status::default(), Status::Normal);
}

#[test]
fn test_presentation_is_fixed_per_status() {
    let all = [
        Status::Running,
        Status::Success,
        Status::Warning,
        Status::Failure,
        Status::Normal,
        Status::Skipped,
        Status::Passed,
    ];
    for status in all {
        let expected = if status == Status::Failure {
            Stream::Stderr
        } else {
            Stream::Stdout
        };
        assert_eq!(status.stream(), expected);
        assert_eq!(status.stream(), status.stream());
        assert_eq!(status.badge(), status.badge());
    }
    assert_eq!(Status::Running.badge(), Some(("⏳", "Running")));
    assert_eq!(Status::Success.badge(), Some(("✅", "Success")));
    assert_eq!(Status::Warning.badge(), Some(("⚠️", "Warning")));
    assert_eq!(Status::Failure.badge(), Some(("❌", "Failed")));
    assert_eq!(Status::Skipped.badge(), Some(("⏭️", "Skipped")));
    assert_eq!(Status::Passed.badge(), Some(("✔️", "Passed")));
    assert_eq!(Status::Normal.badge(), None);
}

#[test]
fn test_status_colors() {
    assert_eq!(Status::Running.to_color(), Color::Blue);
    assert_eq!(Status::Success.to_color(), Color::Green);
    assert_eq!(Status::Warning.to_color(), Color::Yellow);
    assert_eq!(Status::Failure.to_color(), Color::Red);
    assert_eq!(Status::Normal.to_color(), Color::Reset);
    assert_eq!(Status::Skipped.to_color(), Color::Yellow);
    assert_eq!(Status::Passed.to_color(), Color::Yellow);
}

#[test]
fn test_status_of_failed() {
    assert_eq!(Status::of_failed(true), Status::Failure);
    assert_eq!(Status::of_failed(false), Status::Success);
}

#[test]
fn test_str_contains() {
    assert!(str_contains("sh: xyz: command not found", "command not found"));
    assert!(str_contains("abc", ""));
    assert!(str_contains("", ""));
    assert!(str_contains("abc", "abc"));
    assert!(str_contains("abc", "c"));
    assert!(str_contains("aab", "ab"));
    assert!(!str_contains("abc", "abcd"));
    assert!(!str_contains("", "a"));
    assert!(!str_contains("abc", "ac"));
    assert!(!str_contains("Command not found", "command not found"));
    assert!(str_contains("größe: ✅ ok", "✅ o"));
}

#[test]
fn test_trim() {
    assert_eq!(trim("  hello \n"), "hello");
    assert_eq!(trim("hello"), "hello");
    assert_eq!(trim(""), "");
    assert_eq!(trim(" \t\r\n"), "");
    assert_eq!(trim("a b"), "a b");
    assert_eq!(trim("\u{3000}é x\u{a0}"), "é x");
    assert_eq!(trim(" \u{200b} "), "\u{200b}");
}

#[test]
fn test_is_space_agrees_with_char() {
    let mut code: u32 = 0;
    while code <= 0x10FFFF {
        if let Some(c) = char::from_u32(code) {
            assert_eq!(is_space(c), c.is_whitespace(), "U+{:04X}", code);
        }
        code += 1;
    }
}

#[test]
fn test_is_yes() {
    assert!(is_yes("y"));
    assert!(is_yes("Y"));
    assert!(is_yes(" y\n"));
    assert!(is_yes("\tY \r\n"));
    assert!(!is_yes(""));
    assert!(!is_yes("n"));
    assert!(!is_yes("yes"));
    assert!(!is_yes("y y"));
    assert!(!is_yes("\n"));
}

#[test]
fn test_is_yes_agrees_with_lowercasing() {
    let mut code: u32 = 0;
    while code <= 0x10FFFF {
        if let Some(c) = char::from_u32(code) {
            let answer = c.to_string();
            assert_eq!(
                is_yes(&answer),
                answer.trim().to_lowercase() == "y",
                "U+{:04X}",
                code
            );
        }
        code += 1;
    }
}
