use obs_shell::config::{set_config, ConfigStore};
use obs_shell::graphics::registry::{on_close_requested, CloseAction};
use obs_shell::cli::{parse_cli, CliArg, CliOutcome};
use obs_shell::locale::LocaleStore;
use obs_shell::table::{LocaleMap, MessageTable};
use obs_shell::ui::{tray_toggle_title, window_title};

fn store() -> LocaleStore {
    let mut en = MessageTable::new();
    en.insert("TitleBar.Profile".to_string(), Some("Profile".to_string()));
    en.insert("TitleBar.Scenes".to_string(), Some("Scenes".to_string()));
    en.insert("Basic.SystemTray.Show".to_string(), Some("Show".to_string()));
    let mut map = LocaleMap::new();
    map.insert("en-US".to_string(), en);
    LocaleStore::new(map, Some("en-US".to_string()))
}

#[test]
fn title_with_profile_and_scenes() {
    let mut config = ConfigStore::new();
    set_config(&mut config, "Basic", "Profile", "Untitled");
    set_config(&mut config, "Basic", "SceneCollection", "Main");
    assert_eq!(
        window_title(&store(), &config, "30.1.2"),
        "OBS 30.1.2 - Profile: Untitled - Scenes: Main"
    );
}

#[test]
fn title_without_settings() {
    let config = ConfigStore::new();
    assert_eq!(window_title(&store(), &config, "1.0"), "OBS 1.0 - Profile:  - Scenes: ");
}

#[test]
fn tray_titles() {
    assert_eq!(tray_toggle_title(&store(), true), "Show");
    assert_eq!(tray_toggle_title(&store(), false), "Basic.SystemTray.Hide");
}

#[test]
fn close_hides_when_minimising_to_tray() {
    let args = vec![CliArg { name: "minimize-to-tray".to_string(), occurrences: 1, value: None }];
    let o = match parse_cli(&args) {
        CliOutcome::Run(o) => o,
        CliOutcome::ShowVersion => panic!("expected options"),
    };
    assert!(matches!(on_close_requested(&o), CloseAction::Hide));
    let plain = match parse_cli(&vec![]) {
        CliOutcome::Run(o) => o,
        CliOutcome::ShowVersion => panic!("expected options"),
    };
    assert!(matches!(on_close_requested(&plain), CloseAction::Close));
}
