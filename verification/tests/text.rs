use omw_util::plugins::{file_extension, has_plugin_extension};
use omw_util::text::{
    chars_of, ends_with, remove_char, same_text, starts_with, strip_prefix,
    to_ascii_lowercase, to_decimal, to_lower,
};

#[test]
fn chars_of_a_string() {
    assert_eq!(chars_of("aé\"z"), vec!['a', 'é', '"', 'z']);
    assert!(chars_of("").is_empty());
}

#[test]
fn prefixes_and_suffixes() {
    assert!(starts_with("data=x", "data="));
    assert!(starts_with("data=", "data="));
    assert!(starts_with("anything", ""));
    assert!(!starts_with("dat", "data="));
    assert!(!starts_with(" data=x", "data="));
    assert!(ends_with("content=Morrowind.esm", "Morrowind.esm"));
    assert!(ends_with("x", ""));
    assert!(!ends_with("esm", "Morrowind.esm"));
    assert!(!ends_with("Morrowind.esm ", "Morrowind.esm"));
    assert_eq!(strip_prefix("content=a.esp", "content="), Some("a.esp".to_string()));
    assert_eq!(strip_prefix("content=", "content="), Some(String::new()));
    assert_eq!(strip_prefix("contents", "content="), None);
}

#[test]
fn equal_texts() {
    assert!(same_text("esp", "esp"));
    assert!(same_text("", ""));
    assert!(!same_text("esp", "esm"));
    assert!(!same_text("esp", "es"));
    assert!(!same_text("es", "esp"));
}

#[test]
fn removing_a_character() {
    assert_eq!(remove_char("\"C:\\Data Files\"", '"'), "C:\\Data Files");
    assert_eq!(remove_char("\"\"\"", '"'), "");
    assert_eq!(remove_char("plain", '"'), "plain");
}

#[test]
fn lower_case() {
    assert_eq!(to_lower('A'), 'a');
    assert_eq!(to_lower('Z'), 'z');
    assert_eq!(to_lower('m'), 'm');
    assert_eq!(to_lower('@'), '@');
    assert_eq!(to_lower('['), '[');
    assert_eq!(to_lower('É'), 'É');
    assert_eq!(to_ascii_lowercase("OmwAddon.ESP-É"), "omwaddon.esp-É");
}

#[test]
fn decimal_numerals() {
    assert_eq!(to_decimal(0), "0");
    assert_eq!(to_decimal(7), "7");
    assert_eq!(to_decimal(10), "10");
    assert_eq!(to_decimal(509), "509");
    assert_eq!(to_decimal(1234567890), "1234567890");
    assert_eq!(to_decimal(usize::MAX), usize::MAX.to_string());
}

#[test]
fn extensions() {
    assert_eq!(file_extension("a.esp"), Some("esp".to_string()));
    assert_eq!(file_extension("a.b.ESM"), Some("ESM".to_string()));
    assert_eq!(file_extension("a."), Some(String::new()));
    assert_eq!(file_extension("..a"), Some("a".to_string()));
    assert_eq!(file_extension("..."), Some(String::new()));
    assert_eq!(file_extension("a"), None);
    assert_eq!(file_extension(".esp"), None);
    assert_eq!(file_extension(".."), None);
    assert_eq!(file_extension("."), None);
    assert_eq!(file_extension(""), None);
}

#[test]
fn extensions_agree_with_the_standard_library() {
    for name in ["a.esp", "a.b.ESM", "a.", "..a", "...", "a", ".esp", "..", ".a.b", "x.tar.gz"] {
        let expected = std::path::Path::new("dir")
            .join(name)
            .extension()
            .map(|e| e.to_string_lossy().into_owned());
        assert_eq!(file_extension(name), expected);
    }
}

#[test]
fn plugin_extensions() {
    assert!(has_plugin_extension("x.esp", false));
    assert!(has_plugin_extension("x.ESM", false));
    assert!(!has_plugin_extension("x.omwaddon", false));
    assert!(!has_plugin_extension("x.omwscripts", false));
    assert!(has_plugin_extension("x.OmwAddon", true));
    assert!(has_plugin_extension("x.omwscripts", true));
    assert!(!has_plugin_extension("x.esp2", true));
    assert!(!has_plugin_extension("esp", true));
}
