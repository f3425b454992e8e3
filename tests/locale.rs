use obs_shell::ini_file::strip_bom;
use obs_shell::locale::{
    build_locale_map,
    get_locale, locale_codes, locale_file_name, locale_messages, normalize_locale,
    parse_locale_file, parse_locale_index, set_locale, t, trim_quotes, LocaleError, LocaleStore,
};
use obs_shell::table::{LocaleMap, MessageTable};

fn sample_map() -> LocaleMap {
    let mut en = MessageTable::new();
    en.insert("Exit".to_string(), Some("Exit".to_string()));
    en.insert("TitleBar.Profile".to_string(), Some("Profile".to_string()));
    en.insert("Empty".to_string(), None);
    let mut zh = MessageTable::new();
    zh.insert("Exit".to_string(), Some("退出".to_string()));
    let mut map = LocaleMap::new();
    map.insert("en-US".to_string(), en);
    map.insert("zh-CN".to_string(), zh);
    map
}

#[test]
fn missing_key_translates_to_itself() {
    let store = LocaleStore::new(sample_map(), Some("en-US".to_string()));
    assert_eq!(t(&store, "nonexistent.key"), "nonexistent.key");
}

#[test]
fn present_key_translates() {
    let store = LocaleStore::new(sample_map(), Some("en-US".to_string()));
    assert_eq!(t(&store, "Exit"), "Exit");
    assert_eq!(t(&store, "TitleBar.Profile"), "Profile");
}

#[test]
fn key_without_text_translates_to_itself() {
    let store = LocaleStore::new(sample_map(), Some("en-US".to_string()));
    assert_eq!(t(&store, "Empty"), "Empty");
}

#[test]
fn unloaded_locale_translates_to_key() {
    let store = LocaleStore::new(sample_map(), Some("fr-FR".to_string()));
    assert_eq!(t(&store, "Exit"), "Exit");
}

#[test]
fn unsupported_locale_is_refused() {
    let mut store = LocaleStore::new(sample_map(), Some("en-US".to_string()));
    let r = set_locale(&mut store, "xx-YY");
    match r {
        Err(LocaleError::Unsupported(code)) => assert_eq!(code, "xx-YY"),
        _ => panic!("expected an unsupported-locale error"),
    }
    assert_eq!(get_locale(&store), "en-US");
    assert_eq!(t(&store, "Exit"), "Exit");
}

#[test]
fn supported_locale_is_taken() {
    let mut store = LocaleStore::new(sample_map(), Some("en-US".to_string()));
    assert!(set_locale(&mut store, "zh-CN").is_ok());
    assert_eq!(get_locale(&store), "zh-CN");
    assert_eq!(t(&store, "Exit"), "退出");
}

#[test]
fn unsupported_message_names_the_code() {
    assert_eq!(
        LocaleError::Unsupported("xx-YY".to_string()).message(),
        "Unsupported locale: xx-YY"
    );
}

#[test]
fn system_locale_defaults() {
    assert_eq!(normalize_locale(None), "en-US");
    assert_eq!(normalize_locale(Some("zh-Hans-CN".to_string())), "zh-CN");
    assert_eq!(normalize_locale(Some("de-DE".to_string())), "de-DE");
}

#[test]
fn quotes_are_trimmed() {
    assert_eq!(trim_quotes("\"hello\""), "hello");
    assert_eq!(trim_quotes("\"\"a \"b\"\"\""), "a \"b");
    assert_eq!(trim_quotes("plain"), "plain");
    assert_eq!(trim_quotes("\"\"\""), "");
    assert_eq!(trim_quotes(""), "");
}

#[test]
fn locale_file_path() {
    assert_eq!(locale_file_name("en-US"), "resources/locale/en-US.ini");
}

#[test]
fn index_lists_named_sections() {
    let codes = parse_locale_index("[en-US]\n[zh-CN]\nname=x\n").ok().unwrap();
    assert_eq!(codes, vec!["en-US".to_string(), "zh-CN".to_string()]);
}

#[test]
fn index_codes_from_parsed_document() {
    let doc = ini::Ini::load_from_str("top=1\n[de-DE]\n[fr-FR]\n").unwrap();
    assert_eq!(locale_codes(&doc), vec!["de-DE".to_string(), "fr-FR".to_string()]);
}

#[test]
fn locale_file_messages() {
    let table = parse_locale_file("Exit=\"Quit\"\nOK=Fine\nOK=Better\n").ok().unwrap();
    assert_eq!(table.get("Exit"), Some(Some("Quit".to_string())));
    assert_eq!(table.get("OK"), Some(Some("Better".to_string())));
    assert_eq!(table.get("Missing"), None);
}

#[test]
fn messages_of_parsed_document() {
    let doc = ini::Ini::load_from_str("Cancel=Cancel\n[other]\nX=Y\n").unwrap();
    let table = locale_messages(&doc);
    assert_eq!(table.get("Cancel"), Some(Some("Cancel".to_string())));
    assert_eq!(table.get("X"), None);
}

#[test]
fn malformed_locale_file_is_refused() {
    assert!(matches!(parse_locale_file("[en-US"), Err(LocaleError::InvalidFile)));
    assert!(matches!(parse_locale_index("=value"), Err(LocaleError::InvalidFile)));
}

#[test]
fn later_locale_entry_replaces_earlier() {
    let mut map = sample_map();
    let mut en = MessageTable::new();
    en.insert("Exit".to_string(), Some("Leave".to_string()));
    map.insert("en-US".to_string(), en);
    let store = LocaleStore::new(map, None);
    assert_eq!(get_locale(&store), "en-US");
    assert_eq!(t(&store, "Exit"), "Leave");
    assert_eq!(t(&store, "TitleBar.Profile"), "TitleBar.Profile");
}

#[test]
fn locale_map_from_files() {
    let codes = vec!["en-US".to_string(), "zh-CN".to_string()];
    let texts = vec!["Exit=\"Exit\"\n".to_string(), "\u{feff}Exit=\"退出\"\n".to_string()];
    let map = build_locale_map(&codes, &texts).ok().unwrap();
    let mut store = LocaleStore::new(map, Some("zh-CN".to_string()));
    assert_eq!(t(&store, "Exit"), "退出");
    assert!(set_locale(&mut store, "en-US").is_ok());
    assert_eq!(t(&store, "Exit"), "Exit");
}

#[test]
fn locale_map_reports_bad_file() {
    let codes = vec!["en-US".to_string(), "de-DE".to_string()];
    let texts = vec!["Exit=Exit\n".to_string(), "[broken\n".to_string()];
    assert_eq!(build_locale_map(&codes, &texts).err(), Some(1));
}

#[test]
fn byte_order_mark_is_skipped() {
    assert_eq!(strip_bom("\u{feff}[en-US]"), "[en-US]");
    assert_eq!(strip_bom("[en-US]"), "[en-US]");
    let codes = parse_locale_index("\u{feff}[en-US]\n").ok().unwrap();
    assert_eq!(codes, vec!["en-US".to_string()]);
}
