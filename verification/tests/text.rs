use block_chaos::command::{run_cmd, Outcome};
use block_chaos::text::{decimal_string, trim, white_space};

#[test]
fn decimal_of_small_and_large_numbers() {
    assert_eq!(decimal_string(0), "0");
    assert_eq!(decimal_string(7), "7");
    assert_eq!(decimal_string(10), "10");
    assert_eq!(decimal_string(100), "100");
    assert_eq!(decimal_string(1234567890), "1234567890");
    assert_eq!(decimal_string(u64::MAX), u64::MAX.to_string());
}

#[test]
fn decimal_matches_format_on_a_range() {
    for n in (0u64..5000).chain([999_999, 1_000_000, 18_446_744_073_709_551_614]) {
        assert_eq!(decimal_string(n), format!("{}", n));
    }
}

#[test]
fn trim_removes_unicode_white_space_at_both_ends() {
    assert_eq!(trim("  2048\n"), "2048");
    assert_eq!(trim("2048"), "2048");
    assert_eq!(trim("\u{3000}\t a b \u{2028}"), "a b");
    assert_eq!(trim("   \n\t"), "");
    assert_eq!(trim(""), "");
    assert_eq!(trim("x"), "x");
}

#[test]
fn trim_agrees_with_std() {
    for s in ["", " ", "a", " a", "a ", " a b ", "\u{85}z\u{a0}", "\u{200b}q\u{200b}", "\r\n9\r\n"] {
        assert_eq!(trim(s), s.trim());
    }
}

#[test]
fn white_space_agrees_with_std() {
    for u in 0u32..0x3100 {
        if let Some(c) = char::from_u32(u) {
            assert_eq!(white_space(c), c.is_whitespace(), "{:x}", u);
        }
    }
}

#[test]
fn run_cmd_reads_success_failure_and_spawn_error() {
    let ok = Outcome::Exit { success: true, stdout: b"2048\n".to_vec(), stderr: b"warn".to_vec() };
    assert_eq!(run_cmd(&ok), Ok("2048\n".to_string()));
    let failed = Outcome::Exit { success: false, stdout: b"out".to_vec(), stderr: b"no such device".to_vec() };
    assert_eq!(run_cmd(&failed), Err("no such device".to_string()));
    let spawn = Outcome::Error("No such file or directory (os error 2)".to_string());
    assert_eq!(run_cmd(&spawn), Err("No such file or directory (os error 2)".to_string()));
    assert_eq!(run_cmd(&Outcome::Done), Ok(String::new()));
}

#[test]
fn run_cmd_decodes_invalid_utf8_lossily() {
    let failed = Outcome::Exit { success: false, stdout: vec![], stderr: vec![b'e', 0xff, b'!'] };
    assert_eq!(run_cmd(&failed), Err("e\u{fffd}!".to_string()));
}
