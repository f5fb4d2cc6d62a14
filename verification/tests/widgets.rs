use eucalyptus_twig::cell::ObservableCell;
use eucalyptus_twig::config::{Config, WidgetConfig, ClockConfig, WidgetOption, config_path, default_format_string};
use eucalyptus_twig::power_menu::PowerMenuOption;
use eucalyptus_twig::power_profile::{PowerProfile, ProfileIndicator, ProfileKind, profile_kind};

#[test]
fn cell_update_applies_and_notifies() {
    let mut cell = ObservableCell::new(10u32);
    assert!(!cell.take_dirty());
    cell.update(|v| *v + 1);
    assert_eq!(cell.value, 11);
    assert!(cell.take_dirty());
    assert!(!cell.take_dirty(), "notification is consumed");
    // A write that does not change the value still notifies.
    cell.update(|v| *v);
    assert!(cell.take_dirty());
}

#[test]
fn cell_update_after_destroy_is_dropped() {
    let mut cell = ObservableCell::new(5u32);
    cell.destroy();
    cell.update(|v| *v + 100);
    assert_eq!(cell.value, 5);
    assert!(!cell.take_dirty());
}

#[test]
fn profile_names_classify() {
    assert_eq!(profile_kind("power-saver"), ProfileKind::PowerSaver);
    assert_eq!(profile_kind("balanced"), ProfileKind::Balanced);
    assert_eq!(profile_kind("performance"), ProfileKind::Performance);
    assert_eq!(profile_kind("quiet"), ProfileKind::Other);
    assert_eq!(profile_kind(""), ProfileKind::Other);
    assert_eq!(profile_kind("Balanced"), ProfileKind::Other);
}

#[test]
fn profile_indicator_states() {
    let mut p = PowerProfile::new();
    assert_eq!(p.indicator(), ProfileIndicator::Unknown);
    p.set_active_profile("balanced".to_owned());
    assert_eq!(p.indicator(), ProfileIndicator::Profile(ProfileKind::Balanced));
    p.set_error("bus gone".to_owned());
    assert_eq!(p.indicator(), ProfileIndicator::Error);
    assert_eq!(p.active_profile.as_deref(), Some("balanced"));
}

#[test]
fn default_config_layout() {
    let c = Config::default();
    assert_eq!(
        c.left,
        vec![WidgetOption::PowerMenu, WidgetOption::Power, WidgetOption::Clock, WidgetOption::Display]
    );
    assert_eq!(c.middle, vec![WidgetOption::Workspaces]);
    assert_eq!(
        c.right,
        vec![WidgetOption::Volume, WidgetOption::Bluetooth, WidgetOption::PowerProfile]
    );
    assert_eq!(c.widget.clock.format, default_format_string());
    assert_eq!(WidgetConfig::default().clock.format, ClockConfig::default().format);
}

#[test]
fn default_clock_format_text() {
    assert_eq!(
        default_format_string(),
        "[month padding:none repr:numerical]/[day padding:none] [weekday repr:short] [hour padding:none repr:12]:[minute padding:zero] [period case:upper]"
    );
}

#[test]
fn config_path_prefers_xdg_config_home() {
    assert_eq!(
        config_path(Some("/xdg".to_owned()), Some("/home/u".to_owned())),
        Ok("/xdg/eucalyptus-twig/eucalyptus-twig.toml".to_owned())
    );
    // An empty XDG variable falls back to the home directory.
    assert_eq!(
        config_path(Some(String::new()), Some("/home/u".to_owned())),
        Ok("/home/u/.config/eucalyptus-twig/eucalyptus-twig.toml".to_owned())
    );
    assert_eq!(
        config_path(None, Some("/home/u".to_owned())),
        Ok("/home/u/.config/eucalyptus-twig/eucalyptus-twig.toml".to_owned())
    );
    assert_eq!(
        config_path(None, None),
        Err("Failed to get home directory".to_owned())
    );
}

#[test]
fn power_menu_options() {
    let all = PowerMenuOption::all();
    assert_eq!(all.len(), 5);
    assert_eq!(all[0].id(), "lock");
    assert_eq!(all[4].id(), "shutdown");
    assert_eq!(PowerMenuOption::Reboot.name(), "Reboot");
    assert_eq!(PowerMenuOption::Suspend.id(), "suspend");
    assert_eq!(PowerMenuOption::Hibernate.name(), "Hibernate");
    assert!(!PowerMenuOption::Shutdown.icon().is_empty());
}
