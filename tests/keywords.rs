use voice_launcher::{contains_word, launch_for, Launcher};

#[test]
fn weather_opens_weather_app() {
    assert_eq!(launch_for("what is the weather today"), Some(Launcher::Weather));
}

#[test]
fn calculator_opens_calculator() {
    assert_eq!(launch_for("open the calculator please"), Some(Launcher::Calculator));
}

#[test]
fn weather_takes_precedence() {
    assert_eq!(launch_for("calculator and weather"), Some(Launcher::Weather));
}

#[test]
fn unrelated_text_launches_nothing() {
    assert_eq!(launch_for("play some music"), None);
    assert_eq!(launch_for(""), None);
}

#[test]
fn matching_is_case_sensitive() {
    assert_eq!(launch_for("Weather report"), None);
    assert_eq!(launch_for("CALCULATOR"), None);
}

#[test]
fn keyword_inside_longer_word_matches() {
    assert_eq!(launch_for("weatherman"), Some(Launcher::Weather));
}

#[test]
fn substring_search_edges() {
    assert!(contains_word("abc", ""));
    assert!(contains_word("abc", "abc"));
    assert!(contains_word("xxabc", "abc"));
    assert!(!contains_word("ab", "abc"));
    assert!(!contains_word("acb", "abc"));
    assert!(contains_word("grüße", "üß"));
}

#[test]
fn launcher_paths() {
    assert_eq!(Launcher::Weather.app_path(), "/System/Applications/Weather.app");
    assert_eq!(Launcher::Calculator.app_path(), "/System/Applications/Calculator.app");
}
