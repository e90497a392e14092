use metool::text::{holds_text, push_decimal, push_signed_decimal, same_text};

fn decimal(n: u64) -> String {
    let mut out = String::new();
    push_decimal(&mut out, n);
    out
}

#[test]
fn decimal_of_zero_is_one_digit() {
    assert_eq!(decimal(0), "0");
}

#[test]
fn decimal_of_small_and_large_numbers() {
    assert_eq!(decimal(7), "7");
    assert_eq!(decimal(10), "10");
    assert_eq!(decimal(1080), "1080");
    assert_eq!(decimal(u64::MAX), "18446744073709551615");
}

#[test]
fn decimal_is_appended_to_what_is_there() {
    let mut out = String::from("height=");
    push_decimal(&mut out, 720);
    assert_eq!(out, "height=720");
}

#[test]
fn same_text_compares_every_character() {
    assert!(same_text("mp4", "mp4"));
    assert!(same_text("", ""));
    assert!(!same_text("mp4", "mp3"));
    assert!(!same_text("mp4", "mp4 "));
    assert!(!same_text("seletor — a", "seletor - a"));
    assert!(same_text("concluído", "concluído"));
}

#[test]
fn holds_text_finds_exact_names_only() {
    let names = vec!["ffmpeg".to_string(), "yt-dlp.part".to_string()];
    assert!(holds_text(&names, "ffmpeg"));
    assert!(!holds_text(&names, "yt-dlp"));
    assert!(!holds_text(&Vec::new(), "ffmpeg"));
}

#[test]
fn signed_decimal_carries_a_minus_sign() {
    for (n, text) in [(0, "0"), (7, "7"), (-7, "-7"), (i32::MAX, "2147483647"), (i32::MIN, "-2147483648")]
    {
        let mut out = String::from("(");
        push_signed_decimal(&mut out, n);
        assert_eq!(out, format!("({}", text));
    }
}
