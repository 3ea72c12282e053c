use ovim::browser::{
    build_chrome_script, build_safari_script, combined_script, detect_browser_type, split_combined_output, split_commas,
    BrowserType,
};

#[test]
fn test_detect_browser_type() {
    assert!(matches!(detect_browser_type("com.apple.Safari"), Some(BrowserType::Safari)));
    assert!(matches!(detect_browser_type("com.brave.Browser"), Some(BrowserType::Brave)));
    assert!(matches!(detect_browser_type("com.google.Chrome"), Some(BrowserType::Chrome)));
    assert!(detect_browser_type("com.example.unknown").is_none());
}

#[test]
fn test_needs_js_injection() {
    assert!(!BrowserType::Safari.needs_js_injection());
    assert!(BrowserType::Brave.needs_js_injection());
    assert!(BrowserType::Chrome.needs_js_injection());
    assert!(BrowserType::Arc.needs_js_injection());
}

#[test]
fn edge_and_arc_are_detected() {
    assert!(matches!(detect_browser_type("com.microsoft.edgemac"), Some(BrowserType::Chrome)));
    assert!(matches!(detect_browser_type("company.thebrowser.Browser"), Some(BrowserType::Arc)));
}

#[test]
fn app_names_of_browsers() {
    assert_eq!(BrowserType::Safari.app_name(), "Safari");
    assert_eq!(BrowserType::Chrome.app_name(), "Google Chrome");
    assert_eq!(BrowserType::Brave.app_name(), "Brave Browser");
    assert_eq!(BrowserType::Arc.app_name(), "Arc");
}

#[test]
fn scripts_escape_quotes_and_drop_newlines() {
    let s = build_safari_script("say(\"hi\")\nx");
    assert!(s.contains("do JavaScript \"say(\\\"hi\\\")x\" in current tab"));
    let c = build_chrome_script("Arc", "1+1");
    assert!(c.starts_with("tell application \"Arc\"\n"));
    assert!(c.contains("execute javascript \"1+1\""));
}

#[test]
fn combined_script_names_the_browser_process() {
    let brave = combined_script(BrowserType::Brave);
    assert!(brave.contains("front window of process \"Brave Browser\""));
    assert!(brave.ends_with("return winInfo & \"|\" & jsResult"));
    let safari = combined_script(BrowserType::Safari);
    assert!(safari.contains("do JavaScript"));
}

#[test]
fn split_commas_keeps_empty_fields() {
    assert_eq!(split_commas("1,2,3"), vec!["1", "2", "3"]);
    assert_eq!(split_commas(",a,"), vec!["", "a", ""]);
    assert_eq!(split_commas(""), vec![""]);
}

#[test]
fn combined_output_is_split_at_the_first_bar() {
    let (win, js) = split_combined_output("10,20,300|[1|2]").unwrap();
    assert_eq!(win, vec!["10", "20", "300"]);
    assert_eq!(js, Some("[1|2]".to_string()));
    let (_, none) = split_combined_output("1,2,3|null").unwrap();
    assert_eq!(none, None);
    let (_, missing) = split_combined_output("1,2,3|missing value").unwrap();
    assert_eq!(missing, None);
    let (_, empty) = split_combined_output("1,2,3|").unwrap();
    assert_eq!(empty, None);
}

#[test]
fn combined_output_errors() {
    assert_eq!(split_combined_output("no bar"), Err("Invalid combined output format: no bar".to_string()));
    assert_eq!(split_combined_output("1,2|x"), Err("Invalid window info: 1,2".to_string()));
}
