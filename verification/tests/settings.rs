use dsh_installer::model::{Locale, UpdateTarget};
use dsh_installer::settings::Settings;

#[test]
fn settings_defaults_are_english_with_automatic_downloads() {
    let loaded = Settings::from_loaded(None);
    assert_eq!(loaded.schema_version, 1);
    assert_eq!(loaded.locale, Locale::English);
    assert!(loaded.auto_download);
}

#[test]
fn other_schemas_fall_back_to_the_defaults() {
    let mut other = Settings::default();
    other.schema_version = 2;
    other.locale = Locale::Chinese;
    assert_eq!(Settings::from_loaded(Some(other)).locale, Locale::English);
    let mut current = Settings::default();
    current.locale = Locale::Chinese;
    assert_eq!(Settings::from_loaded(Some(current)).locale, Locale::Chinese);
}

#[test]
fn staged_versions_are_reconciled_at_start() {
    let mut settings = Settings::default();
    settings.controller.staged_version = Some("0.5.0".to_owned());
    settings.dsh.staged_version = Some("0.1.0".to_owned());
    assert!(settings.reconcile_staged_versions(true));
    assert!(settings.controller.staged_version.is_none());
    assert_eq!(settings.dsh.staged_version.as_deref(), Some("0.1.0"));
    assert!(settings.reconcile_staged_versions(false));
    assert!(settings.dsh.staged_version.is_none());
    assert!(!settings.reconcile_staged_versions(false));
}

#[test]
fn skipping_and_offering_update_the_channel() {
    let mut settings = Settings::default();
    settings.dsh.staged_version = Some("0.2.0".to_owned());
    settings.skip_version(UpdateTarget::Dsh, "0.2.0");
    assert_eq!(settings.dsh.skipped_version.as_deref(), Some("0.2.0"));
    assert!(settings.dsh.staged_version.is_none());
    settings.skip_version(UpdateTarget::Controller, "0.5.0");
    assert_eq!(settings.controller.skipped_version.as_deref(), Some("0.5.0"));
    settings.record_dsh_offer("0.3.0", true);
    assert_eq!(settings.dsh.staged_version.as_deref(), Some("0.3.0"));
    assert_eq!(settings.dsh.last_notified_version.as_deref(), Some("0.3.0"));
    settings.record_controller_offer("0.6.0");
    assert_eq!(settings.controller.last_notified_version.as_deref(), Some("0.6.0"));
}
