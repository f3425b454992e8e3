use obs_shell::config::{get_config, set_config, ConfigStore};

#[test]
fn missing_file_gives_empty_store() {
    let store = ConfigStore::load(None);
    assert_eq!(get_config(&store, "Basic", "Profile"), None);
}

#[test]
fn stored_value_is_read() {
    let store = ConfigStore::load(Some("[Basic]\nProfile=Untitled\nSceneCollection=Main\n"));
    assert_eq!(get_config(&store, "Basic", "Profile"), Some("Untitled".to_string()));
    assert_eq!(get_config(&store, "Basic", "SceneCollection"), Some("Main".to_string()));
    assert_eq!(get_config(&store, "Basic", "Missing"), None);
    assert_eq!(get_config(&store, "Other", "Profile"), None);
}

#[test]
fn malformed_file_gives_empty_store() {
    let store = ConfigStore::load(Some("[Basic\nProfile=Untitled\n"));
    assert_eq!(get_config(&store, "Basic", "Profile"), None);
}

#[test]
fn set_then_get() {
    let mut store = ConfigStore::new();
    set_config(&mut store, "Basic", "Profile", "Streaming");
    assert_eq!(get_config(&store, "Basic", "Profile"), Some("Streaming".to_string()));
    set_config(&mut store, "Basic", "Profile", "Recording");
    assert_eq!(get_config(&store, "Basic", "Profile"), Some("Recording".to_string()));
}

#[test]
fn set_leaves_other_keys() {
    let mut store = ConfigStore::load(Some("[Basic]\nProfile=A\n[Video]\nFPS=30\n"));
    set_config(&mut store, "Basic", "SceneCollection", "Main");
    assert_eq!(get_config(&store, "Basic", "Profile"), Some("A".to_string()));
    assert_eq!(get_config(&store, "Video", "FPS"), Some("30".to_string()));
    assert_eq!(get_config(&store, "Basic", "SceneCollection"), Some("Main".to_string()));
}

#[test]
fn document_holds_the_settings() {
    let mut store = ConfigStore::new();
    set_config(&mut store, "General", "Language", "en-US");
    assert_eq!(store.document().get_from(Some("General"), "Language"), Some("en-US"));
}

#[test]
fn settings_file_with_byte_order_mark() {
    let store = ConfigStore::load(Some("\u{feff}[Basic]\nProfile=Untitled\n"));
    assert_eq!(get_config(&store, "Basic", "Profile"), Some("Untitled".to_string()));
}
