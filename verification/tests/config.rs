use quiz_display::config::{parse_number, trim_slashes, Config};

fn url(value: &str) -> String {
    Config::from_env(Some(value.to_string()), None, None).quiz_url
}

fn interval(value: &str) -> u64 {
    Config::from_env(None, Some(value.to_string()), None).poll_interval_ms
}

#[test]
fn defaults() {
    let config = Config::from_env(None, None, None);
    assert_eq!(config.quiz_url, "http://localhost:3000");
    assert_eq!(config.poll_interval_ms, 2000);
    assert_eq!(config.device_name, "RustQuiz");
    assert_eq!(config.results_url(), "http://localhost:3000/results");
}

#[test]
fn url_loses_the_slashes_at_its_end() {
    assert_eq!(url("http://quiz.example/"), "http://quiz.example");
    assert_eq!(url("http://quiz.example///"), "http://quiz.example");
    assert_eq!(url("http://quiz.example/a/"), "http://quiz.example/a");
    assert_eq!(url("http://quiz.example"), "http://quiz.example");
    assert_eq!(url("///"), "");
    assert_eq!(url(""), "");
}

#[test]
fn trimming_agrees_with_the_standard_library() {
    for text in ["", "/", "a", "a/", "/a//", "\u{e4}/\u{20ac}//", "//\u{1f980}/"] {
        let once = trim_slashes(text);
        assert_eq!(once, text.trim_end_matches('/'));
        assert_eq!(trim_slashes(&once), once);
    }
}

#[test]
fn interval_falls_back_where_it_is_no_number() {
    assert_eq!(interval("500"), 500);
    assert_eq!(interval("0"), 0);
    assert_eq!(interval("+7"), 7);
    assert_eq!(interval(""), 2000);
    assert_eq!(interval("+"), 2000);
    assert_eq!(interval("-1"), 2000);
    assert_eq!(interval(" 5"), 2000);
    assert_eq!(interval("5s"), 2000);
    assert_eq!(interval("18446744073709551616"), 2000);
}

#[test]
fn numbers_agree_with_the_standard_library() {
    for text in [
        "0", "00012", "+0", "++1", "1+", "12345678901234567890", "18446744073709551615",
        "18446744073709551616", "99999999999999999999999999x", "\u{661}", "1_000", "0x10", "-0",
    ] {
        assert_eq!(parse_number(text), text.parse::<u64>().ok());
    }
}

#[test]
fn device_name_is_taken_as_it_is() {
    assert_eq!(Config::from_env(None, None, Some("Quiz 2/".to_string())).device_name, "Quiz 2/");
    assert_eq!(Config::from_env(None, None, Some(String::new())).device_name, "");
}

#[test]
fn results_url_joins_with_one_slash() {
    let config = Config::from_env(Some("http://quiz.example/base/".to_string()), None, None);
    assert_eq!(config.results_url(), "http://quiz.example/base/results");
}
