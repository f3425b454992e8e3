use obs_shell::table::{LocaleMap, MessageTable};
use obs_shell::trans::{t, NamespacedLocales};

fn sample() -> NamespacedLocales {
    let mut messages = MessageTable::new();
    messages.insert("Exit".to_string(), Some("Quit".to_string()));
    let mut namespaces = LocaleMap::new();
    namespaces.insert("translation".to_string(), messages);
    let mut other = MessageTable::new();
    other.insert("Help".to_string(), Some("Aide".to_string()));
    namespaces.insert("other".to_string(), other);
    let mut locales = NamespacedLocales::new();
    locales.insert("en-US".to_string(), namespaces);
    locales
}

#[test]
fn translation_namespace_is_used() {
    assert_eq!(t(&sample(), "en-US", "Exit"), "Quit");
}

#[test]
fn other_namespaces_are_not_used() {
    assert_eq!(t(&sample(), "en-US", "Help"), "Help");
}

#[test]
fn unknown_locale_falls_back_to_key() {
    assert_eq!(t(&sample(), "fr-FR", "Exit"), "Exit");
}
