//! Texts of the main window and the tray menu.
use vstd::prelude::*;
use crate::config::{get_config, ConfigStore};
use crate::ini_file::IniValues;
use crate::locale::{t, translation, LocaleStore};

verus! {

/// The value the settings hold for `key` in section `section`, if any.
pub open spec fn setting(values: IniValues, section: Seq<char>, key: Seq<char>) -> Seq<char> {
    if values.contains_key((Some(section), key)) {
        values[(Some(section), key)]
    } else {
        Seq::empty()
    }
}

/// The main window's title: the application and its version, then the
/// profile and the scene collection in use, each after its translated label.
pub open spec fn title_of(
    version: Seq<char>,
    profile_label: Seq<char>,
    profile: Seq<char>,
    scenes_label: Seq<char>,
    scenes: Seq<char>,
) -> Seq<char> {
    "OBS "@ + version + " - "@ + profile_label + ": "@ + profile + " - "@ + scenes_label + ": "@
        + scenes
}

/// The main window's title for application version `version`, from the
/// profile and scene collection stored in the `Basic` section of the settings.
pub fn window_title(locales: &LocaleStore, config: &ConfigStore, version: &str) -> (r: String)
    ensures
        r@ == title_of(
            version@,
            translation(locales.locales@, locales.current@, "TitleBar.Profile"@),
            setting(config@, "Basic"@, "Profile"@),
            translation(locales.locales@, locales.current@, "TitleBar.Scenes"@),
            setting(config@, "Basic"@, "SceneCollection"@),
        ),
{
    let profile = get_config(config, "Basic", "Profile");
    let scenes = get_config(config, "Basic", "SceneCollection");
    let mut title = "OBS ".to_owned();
    title.append(version);
    title.append(" - ");
    let profile_label = t(locales, "TitleBar.Profile");
    title.append(profile_label.as_str());
    title.append(": ");
    match &profile {
        Some(p) => title.append(p.as_str()),
        None => {},
    }
    title.append(" - ");
    let scenes_label = t(locales, "TitleBar.Scenes");
    title.append(scenes_label.as_str());
    title.append(": ");
    match &scenes {
        Some(s) => title.append(s.as_str()),
        None => {},
    }
    assert(title@ =~= title_of(
        version@,
        profile_label@,
        setting(config@, "Basic"@, "Profile"@),
        scenes_label@,
        setting(config@, "Basic"@, "SceneCollection"@),
    ));
    title
}

/// The label of the tray menu's first item: "show" where the main window is to
/// be shown by it, "hide" otherwise, translated.
pub fn tray_toggle_title(locales: &LocaleStore, show: bool) -> (r: String)
    ensures
        show ==> r@ == translation(locales.locales@, locales.current@, "Basic.SystemTray.Show"@),
        !show ==> r@ == translation(locales.locales@, locales.current@, "Basic.SystemTray.Hide"@),
{
    if show {
        t(locales, "Basic.SystemTray.Show")
    } else {
        t(locales, "Basic.SystemTray.Hide")
    }
}

} // verus!
