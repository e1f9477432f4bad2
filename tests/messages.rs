use demo_backend::clock::format_clock;
use demo_backend::echo::{echo_for, reply_to};
use demo_backend::session::AppState;
use demo_backend::text::{chars_of, contains_chars, decimal_text};

#[test]
fn message_counts_follow_the_calls() {
    let mut state = AppState::new();
    let texts = ["a", "", "third one", "hello", "ünïcödé"];
    for (i, t) in texts.iter().enumerate() {
        let response = state.send_message(t.to_string());
        assert_eq!(response.count, i + 1);
        assert_eq!(state.get_stats().total_messages, response.count);
    }
    assert_eq!(state.get_stats().total_messages, texts.len());
}

#[test]
fn hello_is_matched_in_any_case() {
    for text in ["Hello there", "HELLO", "saying Hello to you"] {
        assert_eq!(reply_to(text), "Hello there! 👋 Rust says hi back!");
    }
}

#[test]
fn language_keyword_gets_its_praise() {
    assert_eq!(reply_to("I love rust"), "Rust is blazingly fast and memory safe! 🦀");
}

#[test]
fn framework_and_help_keywords() {
    assert_eq!(reply_to("TAURI rocks"), "Tauri is awesome for desktop apps! 🚀");
    assert_eq!(reply_to("please help"), "I'm here to help! Try asking about Rust or Tauri!");
}

#[test]
fn keyword_priority_is_fixed() {
    assert_eq!(reply_to("rust and tauri, hello"), "Hello there! 👋 Rust says hi back!");
    assert_eq!(reply_to("help with rust and tauri"), "Tauri is awesome for desktop apps! 🚀");
    assert_eq!(reply_to("help me with Rust"), "Rust is blazingly fast and memory safe! 🦀");
}

#[test]
fn unmatched_message_is_quoted_back() {
    assert_eq!(reply_to("xyz123"), "I received: 'xyz123' - Thanks for the message!");
    assert_eq!(reply_to(""), "I received: '' - Thanks for the message!");
    assert_eq!(reply_to("Héllo"), "I received: 'Héllo' - Thanks for the message!");
}

#[test]
fn echo_keeps_the_original_case() {
    assert_eq!(echo_for("xyz", "XyZ"), "I received: 'XyZ' - Thanks for the message!");
    assert_eq!(echo_for("hello", "nothing"), "Hello there! 👋 Rust says hi back!");
}

#[test]
fn send_message_answers_and_logs() {
    let mut state = AppState::new();
    let response = state.send_message("Hello there".to_string());
    assert_eq!(response.echo, "Hello there! 👋 Rust says hi back!");
    assert_eq!(response.count, 1);
    let ts = response.timestamp.as_bytes();
    assert_eq!(ts.len(), 8);
    assert_eq!(ts[2], b':');
    assert_eq!(ts[5], b':');
}

#[test]
fn record_message_uses_the_given_time() {
    let mut state = AppState::new();
    let response = state.record_message("xyz123".to_string(), 3 * 3600 + 4 * 60 + 5);
    assert_eq!(response.echo, "I received: 'xyz123' - Thanks for the message!");
    assert_eq!(response.count, 1);
    assert_eq!(response.timestamp, "03:04:05");
}

#[test]
fn clock_text_is_zero_padded() {
    assert_eq!(format_clock(0), "00:00:00");
    assert_eq!(format_clock(86399), "23:59:59");
    assert_eq!(format_clock(12 * 3600 + 30 * 60 + 9), "12:30:09");
}

#[test]
fn substring_search() {
    let hay = chars_of("abcabd");
    assert!(contains_chars(&hay, &chars_of("abd")));
    assert!(contains_chars(&hay, &chars_of("")));
    assert!(!contains_chars(&hay, &chars_of("abe")));
    assert!(!contains_chars(&chars_of("ab"), &chars_of("abc")));
    assert_eq!(chars_of("héllo"), vec!['h', 'é', 'l', 'l', 'o']);
}

#[test]
fn message_count_holds_after_clicks() {
    let mut state = AppState::new();
    state.send_message("first".to_string());
    let last = state.send_message("second".to_string());
    for _ in 0..7 {
        state.button_clicked();
    }
    assert_eq!(state.get_stats().total_messages, last.count);
    assert_eq!(last.count, 2);
}

#[test]
fn decimal_numerals() {
    assert_eq!(decimal_text(0), "0");
    assert_eq!(decimal_text(7), "7");
    assert_eq!(decimal_text(10), "10");
    assert_eq!(decimal_text(907), "907");
    assert_eq!(decimal_text(u64::MAX), "18446744073709551615");
}
