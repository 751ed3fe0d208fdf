use codemelted::console::{
    alert_prompt, choose_selection, choose_title, confirm_prompt, input_prompt,
    is_truthy, is_truthy_lowered, parse_u32, password_prompt,
};
use codemelted::json::CTruthyString;
use codemelted::text::str_contains;

#[test]
fn console_prompts() {
    assert_eq!(alert_prompt(""), "[ENTER]: ");
    assert_eq!(alert_prompt("Oh no it exploded!"), "Oh no it exploded! [ENTER]: ");
    assert_eq!(confirm_prompt(""), "CONFIRM [y/N]: ");
    assert_eq!(confirm_prompt("Continue?"), "Continue? CONFIRM [y/N]: ");
    assert_eq!(input_prompt(""), "PROMPT: ");
    assert_eq!(input_prompt("Name"), "Name: ");
    assert_eq!(password_prompt(""), "PASSWORD: ");
    assert_eq!(password_prompt("Secret"), "Secret: ");
    assert_eq!(choose_title(""), "CHOOSE");
    assert_eq!(choose_title("Pick one"), "Pick one");
}

#[test]
fn truthy_words() {
    for w in ["true", "1", "t", "y", "yes", "yeah", "yup", "certainly", "uh-huh"] {
        assert!(is_truthy(w), "{}", w);
    }
    assert!(is_truthy("YES"));
    assert!(is_truthy("Certainly"));
    assert!(!is_truthy("no"));
    assert!(!is_truthy("false"));
    assert!(!is_truthy("2"));
    assert!(is_truthy_lowered("yea"));
    assert!(!is_truthy_lowered("YES"));
    assert!(is_truthy("Y"));
    assert!(!is_truthy("nope"));
    assert!(is_truthy("n"));
}

#[test]
fn truthy_json_values() {
    let yes = json::JsonValue::from("Yup");
    let no = json::JsonValue::from("nope");
    let num = json::JsonValue::from(1);
    assert!(yes.as_truthy());
    assert!(!no.as_truthy());
    assert!(!num.as_truthy());
    assert!(<json::JsonValue as CTruthyString>::is_truthy("TRUE"));
}

#[test]
fn substring_search() {
    assert!(str_contains("hello", "ell"));
    assert!(str_contains("hello", ""));
    assert!(!str_contains("hello", "hello!"));
    assert!(!str_contains("", "a"));
}

#[test]
fn numeral_parsing() {
    assert_eq!(parse_u32("0"), Some(0));
    assert_eq!(parse_u32("+17"), Some(17));
    assert_eq!(parse_u32("4294967295"), Some(4294967295));
    assert_eq!(parse_u32("4294967296"), None);
    assert_eq!(parse_u32("99999999999x"), None);
    assert_eq!(parse_u32(""), None);
    assert_eq!(parse_u32("+"), None);
    assert_eq!(parse_u32("-1"), None);
    assert_eq!(parse_u32("1a"), None);
}

#[test]
fn menu_selection() {
    assert_eq!(choose_selection("0", 3), Some(0));
    assert_eq!(choose_selection("2", 3), Some(2));
    assert_eq!(choose_selection("3", 3), None);
    assert_eq!(choose_selection("x", 3), None);
    assert_eq!(choose_selection("0", 0), None);
}
